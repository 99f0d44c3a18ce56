//! The argument block that the loader hands to the kernel entry point.
use vstd::prelude::*;

use vstd::bytes::{
    lemma_auto_spec_u32_to_from_le_bytes, lemma_auto_spec_u64_to_from_le_bytes,
    spec_u32_from_le_bytes, spec_u32_to_le_bytes, spec_u64_from_le_bytes, spec_u64_to_le_bytes,
    u32_from_le_bytes, u32_to_le_bytes, u64_from_le_bytes, u64_to_le_bytes,
};

use crate::error::LoadError;

verus! {

/// Channel order of a frame buffer pixel, as the kernel receives it.
#[derive(Clone, Copy, PartialEq, Eq, Debug, Structural)]
pub enum PixelFormat {
    Rgb,
    Bgr,
}

/// Pixel layouts that the firmware's graphics output can report.
#[derive(Clone, Copy, PartialEq, Eq, Debug, Structural)]
pub enum FirmwarePixelFormat {
    Rgb,
    Bgr,
    Bitmask,
    BltOnly,
}

pub open spec fn pixel_format_of(f: FirmwarePixelFormat) -> Option<PixelFormat> {
    match f {
        FirmwarePixelFormat::Rgb => Some(PixelFormat::Rgb),
        FirmwarePixelFormat::Bgr => Some(PixelFormat::Bgr),
        _ => None,
    }
}

pub open spec fn pixel_format_tag(p: PixelFormat) -> u32 {
    match p {
        PixelFormat::Rgb => 0,
        PixelFormat::Bgr => 1,
    }
}

impl PixelFormat {
    /// The 32-bit tag of the format in the argument block.
    pub fn tag(&self) -> (r: u32)
        ensures
            r == pixel_format_tag(*self),
    {
        match self {
            PixelFormat::Rgb => 0,
            PixelFormat::Bgr => 1,
        }
    }

    /// The kernel's pixel format for a firmware one; only the two
    /// eight-bit-per-channel layouts are drawable.
    pub fn from_firmware(f: FirmwarePixelFormat) -> (r: Result<PixelFormat, LoadError>)
        ensures
            match pixel_format_of(f) {
                Some(p) => r == Ok::<PixelFormat, LoadError>(p),
                None => r == Err::<PixelFormat, LoadError>(LoadError::UnsupportedPixelFormat),
            },
    {
        match f {
            FirmwarePixelFormat::Rgb => Ok(PixelFormat::Rgb),
            FirmwarePixelFormat::Bgr => Ok(PixelFormat::Bgr),
            _ => Err(LoadError::UnsupportedPixelFormat),
        }
    }
}

/// Base address and size in bytes of the frame buffer.
#[derive(Clone, Copy, PartialEq, Eq, Debug, Structural)]
pub struct FrameBuffer {
    pub base: u64,
    pub size: u64,
}

#[derive(Clone, Copy, PartialEq, Eq, Debug, Structural)]
pub struct FrameBufferConfig {
    pub pixels_per_scan_line: u64,
    pub horizontal_resolution: u64,
    pub vertical_resolution: u64,
    pub pixel_format: PixelFormat,
}

/// The block handed to the kernel entry point.
#[derive(Clone, Copy, PartialEq, Eq, Debug, Structural)]
pub struct Argument {
    pub frame_buffer: FrameBuffer,
    pub frame_buffer_config: FrameBufferConfig,
}

/// The current mode of the firmware's graphics output.
#[derive(Clone, Copy, PartialEq, Eq, Debug, Structural)]
pub struct GraphicsMode {
    pub stride: u64,
    pub horizontal_resolution: u64,
    pub vertical_resolution: u64,
    pub pixel_format: FirmwarePixelFormat,
}

impl Argument {
    /// The argument block for a frame buffer and the mode it is in; fails on
    /// a pixel layout that the kernel cannot draw.
    pub fn from_firmware(frame_buffer: FrameBuffer, mode: GraphicsMode) -> (r: Result<
        Argument,
        LoadError,
    >)
        ensures
            match r {
                Ok(a) => {
                    &&& pixel_format_of(mode.pixel_format) == Some(
                        a.frame_buffer_config.pixel_format,
                    )
                    &&& a.frame_buffer == frame_buffer
                    &&& a.frame_buffer_config.pixels_per_scan_line == mode.stride
                    &&& a.frame_buffer_config.horizontal_resolution == mode.horizontal_resolution
                    &&& a.frame_buffer_config.vertical_resolution == mode.vertical_resolution
                },
                Err(e) => pixel_format_of(mode.pixel_format) is None && e
                    == LoadError::UnsupportedPixelFormat,
            },
    {
        let pixel_format = match PixelFormat::from_firmware(mode.pixel_format) {
            Ok(p) => p,
            Err(e) => return Err(e),
        };
        Ok(Argument {
            frame_buffer,
            frame_buffer_config: FrameBufferConfig {
                pixels_per_scan_line: mode.stride,
                horizontal_resolution: mode.horizontal_resolution,
                vertical_resolution: mode.vertical_resolution,
                pixel_format,
            },
        })
    }
}

/// Size in bytes of the argument block: five 64-bit fields, the 32-bit
/// pixel format tag and four bytes of padding.
pub const ARGUMENT_SIZE: usize = 48;

pub open spec fn pixel_format_of_tag(tag: u32) -> Option<PixelFormat> {
    if tag == 0 {
        Some(PixelFormat::Rgb)
    } else if tag == 1 {
        Some(PixelFormat::Bgr)
    } else {
        None
    }
}

/// The argument block as the kernel reads it from memory.
pub open spec fn argument_bytes(a: Argument) -> Seq<u8> {
    spec_u64_to_le_bytes(a.frame_buffer.base) + spec_u64_to_le_bytes(a.frame_buffer.size)
        + spec_u64_to_le_bytes(a.frame_buffer_config.pixels_per_scan_line) + spec_u64_to_le_bytes(
        a.frame_buffer_config.horizontal_resolution,
    ) + spec_u64_to_le_bytes(a.frame_buffer_config.vertical_resolution) + spec_u32_to_le_bytes(
        pixel_format_tag(a.frame_buffer_config.pixel_format),
    ) + seq![0u8, 0u8, 0u8, 0u8]
}

pub open spec fn u64_field(s: Seq<u8>, off: int) -> u64 {
    spec_u64_from_le_bytes(s.subrange(off, off + 8))
}

/// The argument block stored in `s`, if `s` holds one.
pub open spec fn argument_of_bytes(s: Seq<u8>) -> Option<Argument> {
    if s.len() != ARGUMENT_SIZE {
        None
    } else {
        match pixel_format_of_tag(spec_u32_from_le_bytes(s.subrange(40, 44))) {
            Some(pixel_format) => Some(
                Argument {
                    frame_buffer: FrameBuffer { base: u64_field(s, 0), size: u64_field(s, 8) },
                    frame_buffer_config: FrameBufferConfig {
                        pixels_per_scan_line: u64_field(s, 16),
                        horizontal_resolution: u64_field(s, 24),
                        vertical_resolution: u64_field(s, 32),
                        pixel_format,
                    },
                },
            ),
            None => None,
        }
    }
}

impl Argument {
    /// The block in its fixed layout, for the kernel entry point.
    pub fn to_bytes(&self) -> (r: Vec<u8>)
        ensures
            r@ == argument_bytes(*self),
            r@.len() == ARGUMENT_SIZE,
    {
        proof {
            lemma_auto_spec_u64_to_from_le_bytes();
            lemma_auto_spec_u32_to_from_le_bytes();
        }
        let mut out = u64_to_le_bytes(self.frame_buffer.base);
        let mut part = u64_to_le_bytes(self.frame_buffer.size);
        out.append(&mut part);
        let mut part = u64_to_le_bytes(self.frame_buffer_config.pixels_per_scan_line);
        out.append(&mut part);
        let mut part = u64_to_le_bytes(self.frame_buffer_config.horizontal_resolution);
        out.append(&mut part);
        let mut part = u64_to_le_bytes(self.frame_buffer_config.vertical_resolution);
        out.append(&mut part);
        let mut part = u32_to_le_bytes(self.frame_buffer_config.pixel_format.tag());
        out.append(&mut part);
        out.push(0);
        out.push(0);
        out.push(0);
        out.push(0);
        assert(out@ =~= argument_bytes(*self));
        out
    }

    /// Reads a block in the fixed layout; `None` unless `bytes` has the
    /// block's size and a known pixel format tag.
    pub fn from_bytes(bytes: &[u8]) -> (r: Option<Argument>)
        ensures
            r == argument_of_bytes(bytes@),
    {
        if bytes.len() != ARGUMENT_SIZE {
            return None;
        }
        let tag = u32_from_le_bytes(vstd::slice::slice_subrange(bytes, 40, 44));
        let pixel_format = if tag == 0 {
            PixelFormat::Rgb
        } else if tag == 1 {
            PixelFormat::Bgr
        } else {
            return None;
        };
        Some(
            Argument {
                frame_buffer: FrameBuffer {
                    base: u64_from_le_bytes(vstd::slice::slice_subrange(bytes, 0, 8)),
                    size: u64_from_le_bytes(vstd::slice::slice_subrange(bytes, 8, 16)),
                },
                frame_buffer_config: FrameBufferConfig {
                    pixels_per_scan_line: u64_from_le_bytes(
                        vstd::slice::slice_subrange(bytes, 16, 24),
                    ),
                    horizontal_resolution: u64_from_le_bytes(
                        vstd::slice::slice_subrange(bytes, 24, 32),
                    ),
                    vertical_resolution: u64_from_le_bytes(
                        vstd::slice::slice_subrange(bytes, 32, 40),
                    ),
                    pixel_format,
                },
            },
        )
    }
}

/// What the loader writes is what the kernel reads back.
pub proof fn lemma_argument_round_trip(a: Argument)
    ensures
        argument_bytes(a).len() == ARGUMENT_SIZE,
        argument_of_bytes(argument_bytes(a)) == Some(a),
{
    lemma_auto_spec_u64_to_from_le_bytes();
    lemma_auto_spec_u32_to_from_le_bytes();
    let s = argument_bytes(a);
    let c = a.frame_buffer_config;
    assert(s.subrange(0, 8) =~= spec_u64_to_le_bytes(a.frame_buffer.base));
    assert(s.subrange(8, 16) =~= spec_u64_to_le_bytes(a.frame_buffer.size));
    assert(s.subrange(16, 24) =~= spec_u64_to_le_bytes(c.pixels_per_scan_line));
    assert(s.subrange(24, 32) =~= spec_u64_to_le_bytes(c.horizontal_resolution));
    assert(s.subrange(32, 40) =~= spec_u64_to_le_bytes(c.vertical_resolution));
    assert(s.subrange(40, 44) =~= spec_u32_to_le_bytes(pixel_format_tag(c.pixel_format)));
}

} // verus!
