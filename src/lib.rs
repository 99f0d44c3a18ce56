//! Loader-side logic of a small UEFI boot chain: parsing of a 64-bit ELF
//! kernel image, its load plan, the memory image of its segments, the boot
//! sequence up to the kernel entry point and the argument block handed over;
//! kernel-side pixel placement, text console and PCI bus scan.

pub mod arg;
pub mod boot;
pub mod bytes;
pub mod console;
pub mod elf;
pub mod error;
pub mod graphic;
pub mod load_plan;
pub mod materialize;
pub mod memory_map;
pub mod pci;
