//! The exit status a test run reports to the hosting emulator.
//!
//! Reporting itself is a port write outside this library; here stand the
//! status values and their wire codes.

use vstd::prelude::*;

verus! {

/// Exit status of a test run: reported to the host, then the machine
/// halts.
#[derive(Clone, Copy, Debug, PartialEq, Eq, Structural)]
pub enum QemuExitCode {
    Success,
    Failed,
}

impl QemuExitCode {
    /// The wire value of this exit status.
    pub fn code(self) -> (code: u32)
        ensures
            self is Success ==> code == 0x10,
            self is Failed ==> code == 0x11,
    {
        match self {
            QemuExitCode::Success => 0x10,
            QemuExitCode::Failed => 0x11,
        }
    }
}

} // verus!
