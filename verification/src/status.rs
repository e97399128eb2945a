//! How a child process ended, and the exit code the wrapper propagates.

use vstd::prelude::*;

verus! {

/// Completion of the child: a normal exit with a code, or death by signal.
#[derive(Clone, Copy, Debug, PartialEq, Eq, Structural)]
pub enum ExitStatus {
    ExitedWithCode(i32),
    KilledBySignal,
}

/// The code the wrapper exits with when its child was killed by a signal.
pub const SIGNAL_EXIT_CODE: i32 = 1;

/// The code the wrapper exits with when it was given no program to run.
pub const USAGE_EXIT_CODE: i32 = 1;

impl ExitStatus {
    /// The code the wrapper itself exits with for this child status.
    pub open spec fn spec_exit_code(self) -> i32 {
        match self {
            ExitStatus::ExitedWithCode(code) => code,
            ExitStatus::KilledBySignal => SIGNAL_EXIT_CODE,
        }
    }

    /// Builds the status from the optional code the operating system reports:
    /// no code means the child was terminated by a signal.
    pub fn from_code(code: Option<i32>) -> (status: ExitStatus)
        ensures
            status == match code {
                Some(c) => ExitStatus::ExitedWithCode(c),
                None => ExitStatus::KilledBySignal,
            },
    {
        match code {
            Some(c) => ExitStatus::ExitedWithCode(c),
            None => ExitStatus::KilledBySignal,
        }
    }

    /// Mirrors the child's exit code; a child killed by a signal yields 1.
    #[verifier::when_used_as_spec(spec_exit_code)]
    pub fn exit_code(self) -> (code: i32)
        ensures
            code == self.spec_exit_code(),
    {
        match self {
            ExitStatus::ExitedWithCode(code) => code,
            ExitStatus::KilledBySignal => SIGNAL_EXIT_CODE,
        }
    }
}

} // verus!
