//! What came of running the executable of an engine, and what that means
//! for the operation that ran it.

use crate::types::RuntimeType;
use vstd::prelude::*;
use vstd::string::StringExecFns;

verus! {

/// What came of running a command.
#[derive(Debug)]
pub enum RunOutcome {
    /// The process could not be started, for this reason.
    SpawnFailed(String),
    /// The process ended, with this output.
    Exited { success: bool, stdout: String, stderr: String },
}

/// The mathematical content of a [`RunOutcome`].
pub enum RunOutcomeView {
    SpawnFailed(Seq<char>),
    Exited { success: bool, stdout: Seq<char>, stderr: Seq<char> },
}

impl View for RunOutcome {
    type V = RunOutcomeView;

    open spec fn view(&self) -> RunOutcomeView {
        match *self {
            RunOutcome::SpawnFailed(why) => RunOutcomeView::SpawnFailed(why@),
            RunOutcome::Exited { success, stdout, stderr } => RunOutcomeView::Exited {
                success,
                stdout: stdout@,
                stderr: stderr@,
            },
        }
    }
}

/// The message for a command that could not be started:
/// `Failed to execute <Engine> <verb>: <reason>`.
pub open spec fn spawn_failure(kind: RuntimeType, verb: Seq<char>, why: Seq<char>) -> Seq<char> {
    "Failed to execute "@ + kind.spec_name() + " "@ + verb + ": "@ + why
}

/// The message for a command that ended badly: `<failure>: <error output>`.
pub open spec fn run_failure(failure: Seq<char>, stderr: Seq<char>) -> Seq<char> {
    failure + ": "@ + stderr
}

/// What a command printed if it ended well, and the message of its
/// failure if not.
pub open spec fn run_output(
    kind: RuntimeType,
    verb: Seq<char>,
    failure: Seq<char>,
    outcome: RunOutcomeView,
) -> Result<Seq<char>, Seq<char>> {
    match outcome {
        RunOutcomeView::SpawnFailed(why) => Err(spawn_failure(kind, verb, why)),
        RunOutcomeView::Exited { success, stdout, stderr } => if success {
            Ok(stdout)
        } else {
            Err(run_failure(failure, stderr))
        },
    }
}

/// What the command `verb` of the engine `kind` printed if it ended
/// well, and the message of its failure if not. `failure` names what did
/// not work, such as `Failed to start container`.
pub fn check_run(kind: RuntimeType, verb: &str, failure: &str, outcome: &RunOutcome) -> (r:
    Result<String, String>)
    ensures
        match r {
            Ok(stdout) => run_output(kind, verb@, failure@, outcome@) == Ok::<
                Seq<char>,
                Seq<char>,
            >(stdout@),
            Err(message) => run_output(kind, verb@, failure@, outcome@) == Err::<
                Seq<char>,
                Seq<char>,
            >(message@),
        },
{
    match outcome {
        RunOutcome::SpawnFailed(why) => {
            let mut message = "Failed to execute ".to_string();
            message.append(kind.to_string().as_str());
            message.append(" ");
            message.append(verb);
            message.append(": ");
            message.append(why.as_str());
            Err(message)
        },
        RunOutcome::Exited { success, stdout, stderr } => {
            if *success {
                Ok(stdout.clone())
            } else {
                let mut message = failure.to_string();
                message.append(": ");
                message.append(stderr.as_str());
                Err(message)
            }
        },
    }
}

} // verus!
