//! Verified model of the core of a minimal single-core kernel: a bump-style
//! heap allocator, an interrupt-safe text console over a fixed character
//! grid, the chained interrupt-controller driver, the exception table with
//! its handler policies, and the critical-section discipline that ties the
//! foreground context and interrupt handlers together.
//!
//! Hardware access (port I/O, the memory-mapped character device, loading
//! the CPU's descriptor table) cannot be verified and lives outside this
//! library; everything here works on plain values and carries contracts.
pub mod allocator;
pub mod console;
pub mod critical;
pub mod diagnostics;
pub mod interrupts;
pub mod kernel;
pub mod keyboard;

use vstd::prelude::*;
use vstd::string::StringExecFns;

verus! {

/// Status reported to the external test harness when the kernel shuts
/// down under test.
#[derive(Clone, Copy, Debug, PartialEq, Eq, Structural)]
pub enum QemuExitCode {
    Success,
    Failed,
}

impl QemuExitCode {
    /// The value written to the harness's shutdown port for this status.
    pub open spec fn spec_code(self) -> u32 {
        match self {
            QemuExitCode::Success => 0x10,
            QemuExitCode::Failed => 0x11,
        }
    }

    pub fn code(self) -> (r: u32)
        ensures
            r == self.spec_code(),
    {
        match self {
            QemuExitCode::Success => 0x10,
            QemuExitCode::Failed => 0x11,
        }
    }
}

/// One runnable test of the harness.
pub trait Testable {
    fn run(&self);
}

/// Runs every test in order and reports success; a failing test panics
/// out of the runner instead, and the embedder reports `Failed`.
pub fn test_runner<T: Testable>(tests: &[T]) -> (r: QemuExitCode)
    ensures
        r == QemuExitCode::Success,
{
    let mut i: usize = 0;
    while i < tests.len()
        decreases tests.len() - i,
    {
        tests[i].run();
        i = i + 1;
    }
    QemuExitCode::Success
}

/// Text wrapped in the ANSI escape codes for green, for the serial log.
pub struct Green(pub &'static str);

impl Green {
    /// The wrapped text: green escape code, the text, reset code.
    pub fn ansi_string(&self) -> (r: String)
        ensures
            r@ == "\x1B[32m"@ + self.0@ + "\x1B[0m"@,
    {
        let mut s = String::from_str("\x1B[32m");
        s.append(self.0);
        s.append("\x1B[0m");
        proof {
            assert(s@ =~= "\x1B[32m"@ + self.0@ + "\x1B[0m"@);
        }
        s
    }
}

/// Text wrapped in the ANSI escape codes for red, for the serial log.
pub struct Red(pub &'static str);

impl Red {
    /// The wrapped text: red escape code, the text, reset code.
    pub fn ansi_string(&self) -> (r: String)
        ensures
            r@ == "\x1B[31m"@ + self.0@ + "\x1B[0m"@,
    {
        let mut s = String::from_str("\x1B[31m");
        s.append(self.0);
        s.append("\x1B[0m");
        proof {
            assert(s@ =~= "\x1B[31m"@ + self.0@ + "\x1B[0m"@);
        }
        s
    }
}

} // verus!
