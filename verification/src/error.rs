//! What can end a run, and how the run's outcome is reported.

use vstd::prelude::*;

verus! {

/// A failure that ends the whole run.
#[derive(Clone, Copy, Debug, PartialEq, Eq, Structural)]
pub enum RunError {
    /// The command holds no program name.
    EmptyCommand,
    /// The command holds a quote that is never closed.
    MismatchedQuotes,
    /// The child could not be started.
    Spawn,
    /// A record could not be appended to the output file.
    SinkWrite,
    /// The instant of the next sample cannot be represented.
    Schedule,
    /// A background task ended abnormally.
    TaskFailed,
    /// The platform offers no memory accounting.
    UnsupportedPlatform,
}

impl RunError {
    /// The text shown to the operator.
    pub open spec fn message_text(self) -> Seq<char> {
        match self {
            RunError::EmptyCommand => "invalid: empty command"@,
            RunError::MismatchedQuotes => "Mismatched quotes"@,
            RunError::Spawn => "failed to start child process"@,
            RunError::SinkWrite => "unable to write to the output file"@,
            RunError::Schedule => "unable to calculate next stat collection instant"@,
            RunError::TaskFailed => "child process had a panic"@,
            RunError::UnsupportedPlatform => "dumbmem is linux only"@,
        }
    }

    /// The text shown to the operator.
    pub fn message(&self) -> (text: &'static str)
        ensures
            text@ == self.message_text(),
    {
        match self {
            RunError::EmptyCommand => "invalid: empty command",
            RunError::MismatchedQuotes => "Mismatched quotes",
            RunError::Spawn => "failed to start child process",
            RunError::SinkWrite => "unable to write to the output file",
            RunError::Schedule => "unable to calculate next stat collection instant",
            RunError::TaskFailed => "child process had a panic",
            RunError::UnsupportedPlatform => "dumbmem is linux only",
        }
    }
}

/// The outcome of the whole run, from the outcomes of its tasks in the order
/// in which they were joined: the first failure among them, if there is one.
pub fn first_error(outcomes: &[Result<(), RunError>]) -> (outcome: Result<(), RunError>)
    ensures
        outcome is Ok <==> forall|i: int| 0 <= i < outcomes@.len() ==> outcomes@[i] is Ok,
        outcome is Err ==> exists|i: int|
            0 <= i < outcomes@.len() && outcomes@[i] == outcome && forall|j: int|
                0 <= j < i ==> outcomes@[j] is Ok,
{
    let mut k: usize = 0;
    while k < outcomes.len()
        invariant
            k <= outcomes@.len(),
            forall|j: int| 0 <= j < k ==> outcomes@[j] is Ok,
        decreases outcomes@.len() - k,
    {
        match outcomes[k] {
            Ok(()) => {},
            Err(e) => {
                return Err(e);
            },
        }
        k += 1;
    }
    Ok(())
}

/// The exit status of the process: zero exactly when the run succeeded.
pub fn exit_code(outcome: &Result<(), RunError>) -> (code: u8)
    ensures
        code == (if outcome is Ok { 0u8 } else { 1u8 }),
{
    match outcome {
        Ok(()) => 0,
        Err(_) => 1,
    }
}

} // verus!
