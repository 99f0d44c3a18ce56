use bootloader::arg::{Argument, FirmwarePixelFormat, FrameBuffer, GraphicsMode, PixelFormat};
use bootloader::boot::{Action, BootSequence, Event, Stage};
use bootloader::elf::{Elf, ProgramHeader};
use bootloader::error::LoadError;
use bootloader::load_plan::LoadPlan;

struct Seg {
    p_type: u32,
    offset: u64,
    vaddr: u64,
    filesz: u64,
    memsz: u64,
}

fn load(offset: u64, vaddr: u64, filesz: u64, memsz: u64) -> Seg {
    Seg { p_type: 1, offset, vaddr, filesz, memsz }
}

fn put16(b: &mut Vec<u8>, off: usize, v: u16) {
    b[off..off + 2].copy_from_slice(&v.to_le_bytes());
}

fn put32(b: &mut Vec<u8>, off: usize, v: u32) {
    b[off..off + 4].copy_from_slice(&v.to_le_bytes());
}

fn put64(b: &mut Vec<u8>, off: usize, v: u64) {
    b[off..off + 8].copy_from_slice(&v.to_le_bytes());
}

/// An x86-64 ELF image of `len` bytes whose program header table stands at
/// `phoff` with `count` entries of `entsize` bytes, the first ones from `segs`.
fn image(entry: u64, phoff: u64, entsize: u16, count: u16, segs: &[Seg], len: usize) -> Vec<u8> {
    let mut b = vec![0u8; len];
    b[0..4].copy_from_slice(&[0x7f, b'E', b'L', b'F']);
    b[4] = 2;
    b[5] = 1;
    b[6] = 1;
    put16(&mut b, 16, 2);
    put16(&mut b, 18, 62);
    put32(&mut b, 20, 1);
    put64(&mut b, 24, entry);
    put64(&mut b, 32, phoff);
    put16(&mut b, 52, 64);
    put16(&mut b, 54, entsize);
    put16(&mut b, 56, count);
    for (i, s) in segs.iter().enumerate() {
        let o = phoff as usize + i * entsize as usize;
        put32(&mut b, o, s.p_type);
        put32(&mut b, o + 4, 5);
        put64(&mut b, o + 8, s.offset);
        put64(&mut b, o + 16, s.vaddr);
        put64(&mut b, o + 24, s.vaddr);
        put64(&mut b, o + 32, s.filesz);
        put64(&mut b, o + 40, s.memsz);
        put64(&mut b, o + 48, 0x1000);
    }
    b
}

fn patterned(b: &mut Vec<u8>, from: usize, to: usize) {
    for i in from..to {
        b[i] = (i % 251) as u8 + 1;
    }
}

fn two_segment_image() -> Vec<u8> {
    let segs = [load(0, 0x100000, 0x40, 0x2000), load(0, 0x180000, 0x40, 0x1000)];
    image(0x100000, 64, 56, 2, &segs, 64 + 2 * 56)
}

#[test]
fn end_to_end_single_segment() {
    let segs = [load(0, 0x100000, 0x30, 0x30)];
    let mut buf = image(0x100020, 64, 56, 1, &segs, 0x100);
    patterned(&mut buf, 120, 0x100);
    let elf = Elf::new(&buf).unwrap();
    assert_eq!(elf.calculate_base_addr(), 0x100000);
    assert_eq!(elf.calculate_page_count(), 1);
    assert_eq!(elf.entry(), 0x100020);
    assert_eq!(
        elf.load_plan(),
        Ok(LoadPlan { base_address: 0x100000, page_count: 1 })
    );
    let ph = elf.program_header_iter()[0];
    let bytes = ph.load_bytes(&buf).unwrap();
    assert_eq!(bytes.len(), 0x30);
    assert_eq!(&bytes[..], &buf[0..0x30]);

    let mut boot = BootSequence::start(&elf, buf.len());
    assert_eq!(
        boot.next_action(),
        Action::AllocatePages { address: 0x100000, page_count: 1 }
    );
    assert_eq!(boot.step(Event::AllocationSucceeded), Action::CopySegments);
    assert_eq!(boot.step(Event::SegmentsCopied), Action::CaptureMemoryMap);
    assert_eq!(
        boot.step(Event::MemoryMapCaptured { map_key: 77 }),
        Action::ExitBootServices { map_key: 77 }
    );
    assert_eq!(
        boot.step(Event::ExitSucceeded),
        Action::InvokeEntry { entry: 0x100020 }
    );
    assert_eq!(boot.stage, Stage::ServicesExited);
    assert_eq!(boot.step(Event::EntryCalled), Action::Idle);
    assert_eq!(boot.stage, Stage::EntryInvoked);

    let fb = FrameBuffer { base: 0x8000_0000, size: 0x1d4c00 };
    let mode = GraphicsMode {
        stride: 800,
        horizontal_resolution: 800,
        vertical_resolution: 600,
        pixel_format: FirmwarePixelFormat::Bgr,
    };
    let arg = Argument::from_firmware(fb, mode).unwrap();
    assert_eq!(arg.frame_buffer.size, 0x1d4c00);
    assert_eq!(arg.frame_buffer.base, 0x8000_0000);
    assert_eq!(arg.frame_buffer_config.pixels_per_scan_line, 800);
    assert_eq!(arg.frame_buffer_config.horizontal_resolution, 800);
    assert_eq!(arg.frame_buffer_config.vertical_resolution, 600);
    assert_eq!(arg.frame_buffer_config.pixel_format, PixelFormat::Bgr);
}

#[test]
fn two_segments_page_count() {
    let buf = two_segment_image();
    let elf = Elf::new(&buf).unwrap();
    assert_eq!(elf.calculate_base_addr(), 0x100000);
    assert_eq!(elf.calculate_page_count(), 129);
}

#[test]
fn segment_order_does_not_change_plan() {
    let a = [
        load(0, 0x180000, 0x10, 0x1000),
        Seg { p_type: 4, offset: 0, vaddr: 0x10, filesz: 0, memsz: 0x10 },
        load(0, 0x100000, 0x10, 0x2000),
        load(0, 0x140000, 0x10, 0x41001),
    ];
    let b = [
        load(0, 0x140000, 0x10, 0x41001),
        load(0, 0x100000, 0x10, 0x2000),
        load(0, 0x180000, 0x10, 0x1000),
        Seg { p_type: 4, offset: 0, vaddr: 0x10, filesz: 0, memsz: 0x10 },
    ];
    let ea = Elf::new(&image(0x100000, 64, 56, 4, &a, 64 + 4 * 56)).unwrap();
    let eb = Elf::new(&image(0x100000, 64, 56, 4, &b, 64 + 4 * 56)).unwrap();
    assert_eq!(ea.load_plan(), eb.load_plan());
    // highest end is 0x181001: one byte into the 130th page.
    assert_eq!(
        ea.load_plan(),
        Ok(LoadPlan { base_address: 0x100000, page_count: 130 })
    );
}

#[test]
fn non_loadable_segments_are_ignored() {
    let segs = [
        Seg { p_type: 2, offset: 0, vaddr: 0x1000, filesz: 0, memsz: 0x10_0000 },
        load(0, 0x200000, 0x10, 0x1800),
    ];
    let elf = Elf::new(&image(0x200000, 64, 56, 2, &segs, 64 + 2 * 56)).unwrap();
    assert_eq!(elf.calculate_base_addr(), 0x200000);
    assert_eq!(elf.calculate_page_count(), 2);
}

#[test]
fn plan_is_idempotent() {
    let buf = two_segment_image();
    let elf = Elf::new(&buf).unwrap();
    let first = elf.load_plan();
    let second = elf.load_plan();
    assert_eq!(first, second);
    assert_eq!(elf.calculate_base_addr(), elf.calculate_base_addr());
    assert_eq!(elf.calculate_page_count(), elf.calculate_page_count());
}

#[test]
fn segment_zero_fill() {
    let segs = [load(0x80, 0x100000, 0x10, 0x1000)];
    let mut buf = image(0x100000, 64, 56, 1, &segs, 0x200);
    patterned(&mut buf, 0x80, 0x200);
    let elf = Elf::new(&buf).unwrap();
    let bytes = elf.program_header_iter()[0].load_bytes(&buf).unwrap();
    assert_eq!(bytes.len(), 0x1000);
    assert_eq!(&bytes[0..0x10], &buf[0x80..0x90]);
    assert!(bytes[0x10..].iter().all(|b| *b == 0));
    assert_ne!(buf[0x90], 0);
}

#[test]
fn segment_file_bytes_outside_buffer() {
    let segs = [load(0x100, 0x100000, 0x101, 0x1000)];
    let buf = image(0x100000, 64, 56, 1, &segs, 0x200);
    let elf = Elf::new(&buf).unwrap();
    let ph: ProgramHeader = elf.program_header_iter()[0];
    assert_eq!(ph.load_bytes(&buf), Err(LoadError::ParseError));
    let boot = BootSequence::start(&elf, buf.len());
    assert_eq!(boot.stage, Stage::Halted { error: LoadError::ParseError });
    assert_eq!(boot.next_action(), Action::Halt { error: LoadError::ParseError });
}

#[test]
fn table_past_end_of_buffer() {
    let segs = [load(0, 0x100000, 0x10, 0x10)];
    // two entries announced, one fits
    let buf = image(0x100000, 64, 56, 2, &segs, 64 + 56);
    assert!(matches!(Elf::new(&buf), Err(LoadError::ParseError)));
    // table offset past the end
    let buf = image(0x100000, 64, 56, 0, &[], 64);
    let mut far = buf.clone();
    put64(&mut far, 32, u64::MAX - 8);
    put16(&mut far, 56, 1);
    assert!(matches!(Elf::new(&far), Err(LoadError::ParseError)));
    // entries too small to hold a program header
    let buf = image(0x100000, 64, 32, 2, &[], 256);
    assert!(matches!(Elf::new(&buf), Err(LoadError::ParseError)));
    // header cut short
    assert!(matches!(Elf::new(&[0x7f, b'E', b'L', b'F']), Err(LoadError::ParseError)));
    assert!(matches!(Elf::new(&[]), Err(LoadError::ParseError)));
}

#[test]
fn larger_table_entries_are_stepped_over() {
    let segs = [load(0, 0x300000, 0x10, 0x10), load(0, 0x100000, 0x10, 0x10)];
    let buf = image(0x100000, 64, 64, 2, &segs, 64 + 2 * 64);
    let elf = Elf::new(&buf).unwrap();
    assert_eq!(elf.program_header_iter().len(), 2);
    assert_eq!(elf.program_header_iter()[1].p_vaddr(), 0x100000);
    assert_eq!(elf.calculate_base_addr(), 0x100000);
    assert_eq!(elf.calculate_page_count(), 0x201);
}

#[test]
fn foreign_image_is_rejected() {
    let segs = [load(0, 0x100000, 0x10, 0x10)];
    let mut buf = image(0x100000, 64, 56, 1, &segs, 120);
    buf[1] = b'X';
    assert!(matches!(Elf::new(&buf), Err(LoadError::ImageCompatibilityError)));
    let mut buf = image(0x100000, 64, 56, 1, &segs, 120);
    buf[4] = 1;
    assert!(matches!(Elf::new(&buf), Err(LoadError::ImageCompatibilityError)));
    let mut buf = image(0x100000, 64, 56, 1, &segs, 120);
    put16(&mut buf, 18, 183);
    assert!(matches!(Elf::new(&buf), Err(LoadError::ImageCompatibilityError)));
}

#[test]
fn no_loadable_segment() {
    let segs = [Seg { p_type: 4, offset: 0, vaddr: 0x100000, filesz: 0x10, memsz: 0x10 }];
    let elf = Elf::new(&image(0x100000, 64, 56, 1, &segs, 120)).unwrap();
    assert_eq!(elf.load_plan(), Err(LoadError::NoLoadableSegment));
    assert_eq!(elf.calculate_base_addr(), u64::MAX);
    assert_eq!(elf.calculate_page_count(), 0);
    assert!(!elf.has_loadable_segment());
    let boot = BootSequence::start(&elf, 120);
    assert_eq!(boot.stage, Stage::Halted { error: LoadError::NoLoadableSegment });

    let empty = Elf::new(&image(0x100000, 64, 56, 0, &[], 64)).unwrap();
    assert_eq!(empty.load_plan(), Err(LoadError::NoLoadableSegment));
}

#[test]
fn allocation_failure_halts_before_copy() {
    let buf = two_segment_image();
    let elf = Elf::new(&buf).unwrap();
    let mut boot = BootSequence::start(&elf, buf.len());
    assert_eq!(
        boot.next_action(),
        Action::AllocatePages { address: 0x100000, page_count: 129 }
    );
    let halt = Action::Halt { error: LoadError::AllocationFailure };
    assert_eq!(boot.step(Event::AllocationFailed), halt);
    for e in [
        Event::AllocationSucceeded,
        Event::SegmentsCopied,
        Event::MemoryMapCaptured { map_key: 1 },
        Event::ExitSucceeded,
        Event::EntryCalled,
    ] {
        assert_eq!(boot.step(e), halt);
    }
}

#[test]
fn exit_failure_halts() {
    let buf = two_segment_image();
    let elf = Elf::new(&buf).unwrap();
    let mut boot = BootSequence::start(&elf, buf.len());
    boot.step(Event::AllocationSucceeded);
    boot.step(Event::SegmentsCopied);
    boot.step(Event::MemoryMapCaptured { map_key: 5 });
    assert_eq!(
        boot.step(Event::ExitFailed),
        Action::Halt { error: LoadError::TransitionFailure }
    );
}

#[test]
fn copy_failure_halts() {
    let buf = two_segment_image();
    let elf = Elf::new(&buf).unwrap();
    let mut boot = BootSequence::start(&elf, buf.len());
    boot.step(Event::AllocationSucceeded);
    assert_eq!(
        boot.step(Event::CopyFailed { error: LoadError::AllocationFailure }),
        Action::Halt { error: LoadError::AllocationFailure }
    );
}

#[test]
fn out_of_order_events_change_nothing() {
    let buf = two_segment_image();
    let elf = Elf::new(&buf).unwrap();
    let mut boot = BootSequence::start(&elf, buf.len());
    let before = boot;
    assert_eq!(
        boot.step(Event::ExitSucceeded),
        Action::AllocatePages { address: 0x100000, page_count: 129 }
    );
    assert_eq!(boot, before);
}

#[test]
fn unsupported_pixel_format() {
    let fb = FrameBuffer { base: 0x8000_0000, size: 0x1000 };
    for f in [FirmwarePixelFormat::Bitmask, FirmwarePixelFormat::BltOnly] {
        let mode = GraphicsMode {
            stride: 16,
            horizontal_resolution: 16,
            vertical_resolution: 16,
            pixel_format: f,
        };
        assert_eq!(
            Argument::from_firmware(fb, mode),
            Err(LoadError::UnsupportedPixelFormat)
        );
    }
    assert_eq!(PixelFormat::Rgb.tag(), 0);
    assert_eq!(PixelFormat::Bgr.tag(), 1);
}

#[test]
fn memory_map_failure_halts() {
    let buf = two_segment_image();
    let elf = Elf::new(&buf).unwrap();
    let mut boot = BootSequence::start(&elf, buf.len());
    boot.step(Event::AllocationSucceeded);
    boot.step(Event::SegmentsCopied);
    assert_eq!(
        boot.step(Event::MemoryMapUnavailable),
        Action::Halt { error: LoadError::TransitionFailure }
    );
}
