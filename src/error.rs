//! Fatal conditions of the boot sequence.
use vstd::prelude::*;

verus! {

/// Every error of the loader is terminal: the machine halts on it.
#[derive(Clone, Copy, PartialEq, Eq, Debug, Structural)]
pub enum LoadError {
    /// The header or the segment table lies outside the image buffer, or a
    /// segment's file bytes do.
    ParseError,
    /// The image is not a little-endian 64-bit ELF file for x86-64.
    ImageCompatibilityError,
    /// No segment of the image carries the loadable tag.
    NoLoadableSegment,
    /// The firmware could not provide the requested memory.
    AllocationFailure,
    /// The firmware refused to leave boot services.
    TransitionFailure,
    /// The graphics output uses a pixel layout that the kernel cannot draw.
    UnsupportedPixelFormat,
}

} // verus!
