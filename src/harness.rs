//! The test harness: exit codes for the emulator and the runner over test cases.
use vstd::prelude::*;

verus! {

/// The status handed to the emulator's exit port when a run ends.
#[derive(Clone, Copy, Debug, PartialEq, Eq, Structural)]
pub enum QemuExitCode {
    Success,
    Failed,
}

impl QemuExitCode {
    /// The value written to the exit port; the emulator then exits with
    /// `(value << 1) | 1`.
    pub open spec fn spec_value(self) -> u32 {
        match self {
            QemuExitCode::Success => 0x10,
            QemuExitCode::Failed => 0x11,
        }
    }

    pub fn value(self) -> (r: u32)
        ensures
            r == self.spec_value(),
    {
        match self {
            QemuExitCode::Success => 0x10,
            QemuExitCode::Failed => 0x11,
        }
    }
}

/// A test case that the runner can invoke; a failing case does not return.
pub trait Testable {
    fn run(&self);
}

/// Invokes every test case in order. A case that fails never returns, so
/// reaching the end means every case passed.
pub fn test_runner<T: Testable + ?Sized>(tests: &[&T]) -> (r: QemuExitCode)
    ensures
        r == QemuExitCode::Success,
{
    let mut i: usize = 0;
    while i < tests.len()
        invariant
            i <= tests@.len(),
        decreases tests@.len() - i,
    {
        tests[i].run();
        i += 1;
    }
    QemuExitCode::Success
}

/// The smallest test case: one equals one.
pub fn trivial_assertion() {
    let one: u32 = 1;
    assert(one == 1);
}

} // verus!
