use bootloader::arg::{Argument, FrameBuffer, FrameBufferConfig, PixelFormat};
use bootloader::graphic::{BGRWriter, PixelColor, PixelError, RGBWriter, Writer};
use bootloader::pci::{Configuration, Device};

fn config(format: PixelFormat) -> FrameBufferConfig {
    FrameBufferConfig {
        pixels_per_scan_line: 8,
        horizontal_resolution: 6,
        vertical_resolution: 4,
        pixel_format: format,
    }
}

const FB: FrameBuffer = FrameBuffer { base: 0x8000_0000, size: 8 * 4 * 4 };

const COLOR: PixelColor = PixelColor { r: 1, g: 2, b: 3 };

#[test]
fn rgb_pixel_placement() {
    let w = RGBWriter::new(FB, config(PixelFormat::Rgb));
    assert_eq!(w.horizontal_resolution(), 6);
    assert_eq!(w.vertical_resolution(), 4);
    let p = w.write(5, 3, COLOR).unwrap();
    assert_eq!(p.offset, 4 * (8 * 3 + 5));
    assert_eq!(p.bytes, [1, 2, 3]);
    assert_eq!(w.write(6, 0, COLOR).unwrap_err(), PixelError::OutOfRange);
    assert_eq!(w.write(0, 4, COLOR).unwrap_err(), PixelError::OutOfRange);
}

#[test]
fn bgr_pixel_placement() {
    let w = BGRWriter::new(FB, config(PixelFormat::Bgr));
    let p = w.write(1, 2, COLOR).unwrap();
    assert_eq!(p.offset, 4 * (8 * 2 + 1));
    assert_eq!(p.bytes, [3, 2, 1]);
    // past the visible width but inside the buffer
    assert_eq!(w.write(7, 3, COLOR).unwrap().offset, 124);
    assert_eq!(w.write(0, 4, COLOR).unwrap_err(), PixelError::OutOfRange);
    assert_eq!(w.write(usize::MAX, usize::MAX, COLOR).unwrap_err(), PixelError::OutOfRange);
}

#[test]
fn writer_follows_pixel_format() {
    let arg = Argument { frame_buffer: FB, frame_buffer_config: config(PixelFormat::Bgr) };
    let w = Writer::from_argument(&arg);
    assert!(matches!(w, Writer::Bgr(_)));
    assert_eq!(w.write(0, 0, COLOR).unwrap().bytes, [3, 2, 1]);
    let w = Writer::new_rgb(FB, config(PixelFormat::Rgb));
    assert_eq!(w.write(0, 0, COLOR).unwrap().bytes, [1, 2, 3]);
    assert_eq!(w.horizontal_resolution(), 6);
    assert_eq!(w.vertical_resolution(), 4);
    assert_eq!(w.base(), 0x8000_0000);
    let w = Writer::new_bgr(FB, config(PixelFormat::Bgr));
    assert_eq!(w.write(0, 0, COLOR).unwrap().bytes, [3, 2, 1]);
}

#[test]
fn configuration_address() {
    let d = Device::new(3, 0x1f, 7);
    assert_eq!(d.bus(), 3);
    assert_eq!(d.device(), 0x1f);
    assert_eq!(d.function(), 7);
    assert_eq!(Configuration::address(&d, 0x0e), 0x8003_ff0c);
    assert_eq!(Configuration::address(&Device::new(0, 0, 0), 0x00), 0x8000_0000);
}

#[test]
fn configuration_fields() {
    assert_eq!(Configuration::vender_id(0x1234_8086), 0x8086);
    assert_eq!(Configuration::header_type(0x0081_0010), 0x81);
    assert_eq!(Configuration::base_class(0x0604_0001), 0x06);
    assert_eq!(Configuration::sub_class(0x0604_0001), 0x04);
    assert_eq!(Device::secondary_bus(0x0005_0200), 0x02);
    assert!(Device::is_single_function(0x00));
    assert!(!Device::is_single_function(0x80));
    assert!(Device::is_pci_pci_bridge(0x06, 0x04));
    assert!(!Device::is_pci_pci_bridge(0x06, 0x00));
}
