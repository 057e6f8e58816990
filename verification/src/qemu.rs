//! The diagnostic exit interface of the emulator test harness.
//!
//! Under a test configuration, one write to a fixed port ends the
//! emulation and hands the harness a pass or fail code. This module fixes
//! the port and the two code values; the unverified shell performs the
//! write.

use vstd::prelude::*;

verus! {

/// Port that the test harness watches for the exit code.
pub const QEMU_EXIT_PORT: u16 = 0xf4;

/// Outcome reported to the test harness when the emulation ends.
#[derive(Debug, Clone, Copy, PartialEq, Eq, Structural)]
pub enum QemuExitCode {
    Success,
    Failed,
}

impl QemuExitCode {
    /// The 32-bit value written to the exit port for this outcome.
    pub open spec fn spec_code(self) -> u32 {
        match self {
            QemuExitCode::Success => 0x10,
            QemuExitCode::Failed => 0x11,
        }
    }

    /// The 32-bit value written to the exit port for this outcome.
    pub fn code(self) -> (c: u32)
        ensures
            c == self.spec_code(),
    {
        match self {
            QemuExitCode::Success => 0x10,
            QemuExitCode::Failed => 0x11,
        }
    }
}

} // verus!
