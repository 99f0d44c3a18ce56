//! Pixel placement in a linear frame buffer of four bytes per pixel.
//!
//! The writers compute where a pixel goes and which bytes it is made of;
//! storing those bytes into the frame buffer's memory is the caller's part.
use vstd::prelude::*;

use crate::arg::{Argument, FrameBuffer, FrameBufferConfig, PixelFormat};

verus! {

#[derive(Clone, Copy, PartialEq, Eq, Debug, Structural)]
pub struct PixelColor {
    pub r: u8,
    pub g: u8,
    pub b: u8,
}

/// The three channel bytes of one pixel and the byte offset of the first
/// of them in the frame buffer.
#[derive(Clone, Copy, Debug)]
pub struct PixelWrite {
    pub offset: u64,
    pub bytes: [u8; 3],
}

#[derive(Clone, Copy, PartialEq, Eq, Debug, Structural)]
pub enum PixelError {
    OutOfRange,
}

/// Geometry of a frame buffer as a writer sees it.
pub struct FrameModel {
    pub base: u64,
    pub size: u64,
    pub pixels_per_scan_line: u64,
    pub horizontal_resolution: u64,
    pub vertical_resolution: u64,
}

pub open spec fn model_of(frame_buffer: FrameBuffer, config: FrameBufferConfig) -> FrameModel {
    FrameModel {
        base: frame_buffer.base,
        size: frame_buffer.size,
        pixels_per_scan_line: config.pixels_per_scan_line,
        horizontal_resolution: config.horizontal_resolution,
        vertical_resolution: config.vertical_resolution,
    }
}

/// Byte offset of pixel `(x, y)`.
pub open spec fn pixel_offset(m: FrameModel, x: int, y: int) -> int {
    4 * (m.pixels_per_scan_line * y + x)
}

/// The three bytes of pixel `(x, y)` lie inside the frame buffer.
pub open spec fn pixel_in_buffer(m: FrameModel, x: int, y: int) -> bool {
    pixel_offset(m, x, y) + 3 <= m.size
}

pub open spec fn pixel_on_screen(m: FrameModel, x: int, y: int) -> bool {
    x < m.horizontal_resolution && y < m.vertical_resolution
}

/// Offset of pixel `(x, y)` when it lies inside the frame buffer.
fn checked_pixel_offset(m_stride: u64, m_size: u64, x: usize, y: usize) -> (r: Option<u64>)
    ensures
        match r {
            Some(off) => 4 * (m_stride * y + x) + 3 <= m_size && off == 4 * (m_stride * y + x),
            None => 4 * (m_stride * y + x) + 3 > m_size,
        },
{
    assert((m_stride as int) * (y as int) <= (u64::MAX as int) * (u64::MAX as int))
        by (nonlinear_arith)
        requires
            m_stride <= u64::MAX,
            y <= u64::MAX,
            0 <= m_stride,
            0 <= y,
    ;
    let index: u128 = m_stride as u128 * y as u128 + x as u128;
    if index > m_size as u128 {
        return None;
    }
    let point: u128 = 4 * index;
    if point + 3 > m_size as u128 {
        None
    } else {
        Some(point as u64)
    }
}

pub struct RGBWriter {
    frame_buffer_base: u64,
    size: u64,
    pixels_per_scan_line: u64,
    vertical_resolution: u64,
    horizontal_resolution: u64,
}

impl View for RGBWriter {
    type V = FrameModel;

    closed spec fn view(&self) -> FrameModel {
        FrameModel {
            base: self.frame_buffer_base,
            size: self.size,
            pixels_per_scan_line: self.pixels_per_scan_line,
            horizontal_resolution: self.horizontal_resolution,
            vertical_resolution: self.vertical_resolution,
        }
    }
}

impl RGBWriter {
    pub fn new(frame_buffer: FrameBuffer, frame_buffer_config: FrameBufferConfig) -> (r: RGBWriter)
        ensures
            r@ == model_of(frame_buffer, frame_buffer_config),
    {
        RGBWriter {
            frame_buffer_base: frame_buffer.base,
            size: frame_buffer.size,
            pixels_per_scan_line: frame_buffer_config.pixels_per_scan_line,
            vertical_resolution: frame_buffer_config.vertical_resolution,
            horizontal_resolution: frame_buffer_config.horizontal_resolution,
        }
    }

    pub fn vertical_resolution(&self) -> (r: u64)
        ensures
            r == self@.vertical_resolution,
    {
        self.vertical_resolution
    }

    pub fn horizontal_resolution(&self) -> (r: u64)
        ensures
            r == self@.horizontal_resolution,
    {
        self.horizontal_resolution
    }

    pub fn base(&self) -> (r: u64)
        ensures
            r == self@.base,
    {
        self.frame_buffer_base
    }

    /// Red, green and blue at pixel `(x, y)`, which must be on screen and
    /// inside the buffer.
    pub fn write(&self, x: usize, y: usize, c: PixelColor) -> (r: Result<PixelWrite, PixelError>)
        ensures
            match r {
                Ok(w) => {
                    &&& pixel_on_screen(self@, x as int, y as int)
                    &&& pixel_in_buffer(self@, x as int, y as int)
                    &&& w.offset == pixel_offset(self@, x as int, y as int)
                    &&& w.bytes@ == seq![c.r, c.g, c.b]
                },
                Err(e) => e == PixelError::OutOfRange && !(pixel_on_screen(self@, x as int, y as int)
                    && pixel_in_buffer(self@, x as int, y as int)),
            },
    {
        if x as u64 >= self.horizontal_resolution || y as u64 >= self.vertical_resolution {
            return Err(PixelError::OutOfRange);
        }
        match checked_pixel_offset(self.pixels_per_scan_line, self.size, x, y) {
            Some(offset) => Ok(PixelWrite { offset, bytes: [c.r, c.g, c.b] }),
            None => Err(PixelError::OutOfRange),
        }
    }
}

pub struct BGRWriter {
    frame_buffer_base: u64,
    size: u64,
    pixels_per_scan_line: u64,
    vertical_resolution: u64,
    horizontal_resolution: u64,
}

impl View for BGRWriter {
    type V = FrameModel;

    closed spec fn view(&self) -> FrameModel {
        FrameModel {
            base: self.frame_buffer_base,
            size: self.size,
            pixels_per_scan_line: self.pixels_per_scan_line,
            horizontal_resolution: self.horizontal_resolution,
            vertical_resolution: self.vertical_resolution,
        }
    }
}

impl BGRWriter {
    pub fn new(frame_buffer: FrameBuffer, frame_buffer_config: FrameBufferConfig) -> (r: BGRWriter)
        ensures
            r@ == model_of(frame_buffer, frame_buffer_config),
    {
        BGRWriter {
            frame_buffer_base: frame_buffer.base,
            size: frame_buffer.size,
            pixels_per_scan_line: frame_buffer_config.pixels_per_scan_line,
            vertical_resolution: frame_buffer_config.vertical_resolution,
            horizontal_resolution: frame_buffer_config.horizontal_resolution,
        }
    }

    pub fn vertical_resolution(&self) -> (r: u64)
        ensures
            r == self@.vertical_resolution,
    {
        self.vertical_resolution
    }

    pub fn horizontal_resolution(&self) -> (r: u64)
        ensures
            r == self@.horizontal_resolution,
    {
        self.horizontal_resolution
    }

    pub fn base(&self) -> (r: u64)
        ensures
            r == self@.base,
    {
        self.frame_buffer_base
    }

    /// Blue, green and red at pixel `(x, y)`, which must lie inside the
    /// buffer.
    pub fn write(&self, x: usize, y: usize, c: PixelColor) -> (r: Result<PixelWrite, PixelError>)
        ensures
            match r {
                Ok(w) => {
                    &&& pixel_in_buffer(self@, x as int, y as int)
                    &&& w.offset == pixel_offset(self@, x as int, y as int)
                    &&& w.bytes@ == seq![c.b, c.g, c.r]
                },
                Err(e) => e == PixelError::OutOfRange && !pixel_in_buffer(self@, x as int, y as int),
            },
    {
        match checked_pixel_offset(self.pixels_per_scan_line, self.size, x, y) {
            Some(offset) => Ok(PixelWrite { offset, bytes: [c.b, c.g, c.r] }),
            None => Err(PixelError::OutOfRange),
        }
    }
}

pub enum Writer {
    Rgb(RGBWriter),
    Bgr(BGRWriter),
}

impl Writer {
    pub fn new_rgb(frame_buffer: FrameBuffer, frame_buffer_config: FrameBufferConfig) -> (r: Writer)
        ensures
            r matches Writer::Rgb(w) && w@ == model_of(frame_buffer, frame_buffer_config),
    {
        Writer::Rgb(RGBWriter::new(frame_buffer, frame_buffer_config))
    }

    pub fn new_bgr(frame_buffer: FrameBuffer, frame_buffer_config: FrameBufferConfig) -> (r: Writer)
        ensures
            r matches Writer::Bgr(w) && w@ == model_of(frame_buffer, frame_buffer_config),
    {
        Writer::Bgr(BGRWriter::new(frame_buffer, frame_buffer_config))
    }

    /// The writer for the frame buffer that the loader described.
    pub fn from_argument(arg: &Argument) -> (r: Writer)
        ensures
            arg.frame_buffer_config.pixel_format == PixelFormat::Rgb ==> (r matches Writer::Rgb(w)
                && w@ == model_of(arg.frame_buffer, arg.frame_buffer_config)),
            arg.frame_buffer_config.pixel_format == PixelFormat::Bgr ==> (r matches Writer::Bgr(w)
                && w@ == model_of(arg.frame_buffer, arg.frame_buffer_config)),
    {
        match arg.frame_buffer_config.pixel_format {
            PixelFormat::Rgb => Writer::new_rgb(arg.frame_buffer, arg.frame_buffer_config),
            PixelFormat::Bgr => Writer::new_bgr(arg.frame_buffer, arg.frame_buffer_config),
        }
    }

    pub open spec fn model(&self) -> FrameModel {
        match self {
            Writer::Rgb(w) => w@,
            Writer::Bgr(w) => w@,
        }
    }

    pub fn vertical_resolution(&self) -> (r: u64)
        ensures
            r == self.model().vertical_resolution,
    {
        match self {
            Writer::Rgb(w) => w.vertical_resolution(),
            Writer::Bgr(w) => w.vertical_resolution(),
        }
    }

    pub fn horizontal_resolution(&self) -> (r: u64)
        ensures
            r == self.model().horizontal_resolution,
    {
        match self {
            Writer::Rgb(w) => w.horizontal_resolution(),
            Writer::Bgr(w) => w.horizontal_resolution(),
        }
    }

    pub fn base(&self) -> (r: u64)
        ensures
            r == self.model().base,
    {
        match self {
            Writer::Rgb(w) => w.base(),
            Writer::Bgr(w) => w.base(),
        }
    }

    pub fn write(&self, x: usize, y: usize, c: PixelColor) -> (r: Result<PixelWrite, PixelError>)
        ensures
            match (self, r) {
                (Writer::Rgb(w), Ok(pw)) => {
                    &&& pixel_on_screen(w@, x as int, y as int)
                    &&& pixel_in_buffer(w@, x as int, y as int)
                    &&& pw.offset == pixel_offset(w@, x as int, y as int)
                    &&& pw.bytes@ == seq![c.r, c.g, c.b]
                },
                (Writer::Rgb(w), Err(_)) => !(pixel_on_screen(w@, x as int, y as int)
                    && pixel_in_buffer(w@, x as int, y as int)),
                (Writer::Bgr(w), Ok(pw)) => {
                    &&& pixel_in_buffer(w@, x as int, y as int)
                    &&& pw.offset == pixel_offset(w@, x as int, y as int)
                    &&& pw.bytes@ == seq![c.b, c.g, c.r]
                },
                (Writer::Bgr(w), Err(_)) => !pixel_in_buffer(w@, x as int, y as int),
            },
    {
        match self {
            Writer::Rgb(w) => w.write(x, y, c),
            Writer::Bgr(w) => w.write(x, y, c),
        }
    }
}

} // verus!
