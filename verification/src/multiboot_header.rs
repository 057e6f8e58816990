//! The boot-protocol header that marks the image as a kernel.
//!
//! The bootloader searches the first kilobytes of the image for this
//! three-word signature: a fixed magic number, a flag word, and a checksum
//! chosen so the three words sum to zero.

use vstd::prelude::*;

verus! {

/// Flag asking the bootloader to align loaded modules on page boundaries.
pub const ALIGN: i32 = 1;

/// Flag asking the bootloader to provide a memory map.
pub const MEMINFO: i32 = 2;

/// The flag word of the header: both flags set (their bits are disjoint,
/// so the sum is their union).
pub const FLAGS: i32 = ALIGN + MEMINFO;

/// The magic number the bootloader searches for.
pub const MAGIC: i32 = 0x1BADB002;

/// The checksum completing the header: the three words sum to zero.
pub const CHECKSUM: i32 = -(MAGIC + FLAGS);

/// The boot-protocol header: magic number, flags, and checksum.
#[derive(Debug, Clone, Copy, PartialEq, Eq, Structural)]
pub struct MultibootHeader {
    pub magic: i32,
    pub flags: i32,
    pub checksum: i32,
}

/// A header is valid when it carries the magic number and its three words
/// sum to zero, which is what the bootloader verifies.
pub open spec fn spec_header_valid(h: MultibootHeader) -> bool {
    &&& h.magic == MAGIC
    &&& h.flags == FLAGS
    &&& h.magic + h.flags + h.checksum == 0
}

impl MultibootHeader {
    /// The header of this kernel; it is valid by construction.
    pub fn new() -> (h: MultibootHeader)
        ensures
            h == (MultibootHeader { magic: MAGIC, flags: FLAGS, checksum: CHECKSUM }),
            spec_header_valid(h),
    {
        MultibootHeader { magic: MAGIC, flags: FLAGS, checksum: CHECKSUM }
    }

    /// Checks the signature the way the bootloader does.
    pub fn is_valid(&self) -> (r: bool)
        ensures
            r == spec_header_valid(*self),
    {
        self.magic == MAGIC && self.flags == FLAGS && (self.magic as i64) + (self.flags as i64) + (
        self.checksum as i64) == 0
    }
}

} // verus!
