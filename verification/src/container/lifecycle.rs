//! Starting, stopping, restarting, pausing and unpausing a container:
//! the arguments of the command and the meaning of its outcome.

use crate::command::{check_run, run_output, RunOutcome, RunOutcomeView};
use crate::text::{decimal_text, push_decimal, text_views};
use crate::types::RuntimeType;
use vstd::prelude::*;

verus! {

/// What to do with a container.
#[derive(Debug, Clone, Copy, PartialEq, Eq, Structural)]
pub enum LifecycleAction {
    Start,
    Stop,
    Restart,
    Pause,
    Unpause,
}

impl LifecycleAction {
    /// The subcommand of the action.
    pub open spec fn spec_verb(self) -> Seq<char> {
        match self {
            LifecycleAction::Start => "start"@,
            LifecycleAction::Stop => "stop"@,
            LifecycleAction::Restart => "restart"@,
            LifecycleAction::Pause => "pause"@,
            LifecycleAction::Unpause => "unpause"@,
        }
    }

    /// Whether the action takes a time to wait before the container is
    /// killed.
    pub open spec fn spec_takes_timeout(self) -> bool {
        self == LifecycleAction::Stop || self == LifecycleAction::Restart
    }

    /// The subcommand of the action.
    pub fn verb(&self) -> (s: &'static str)
        ensures
            s@ == self.spec_verb(),
    {
        match self {
            LifecycleAction::Start => "start",
            LifecycleAction::Stop => "stop",
            LifecycleAction::Restart => "restart",
            LifecycleAction::Pause => "pause",
            LifecycleAction::Unpause => "unpause",
        }
    }

    /// What is said when the action fails.
    pub open spec fn spec_failure(self) -> Seq<char> {
        match self {
            LifecycleAction::Start => "Failed to start container"@,
            LifecycleAction::Stop => "Failed to stop container"@,
            LifecycleAction::Restart => "Failed to restart container"@,
            LifecycleAction::Pause => "Failed to pause container"@,
            LifecycleAction::Unpause => "Failed to unpause container"@,
        }
    }

    /// What is said when the action fails.
    pub fn failure(&self) -> (s: &'static str)
        ensures
            s@ == self.spec_failure(),
    {
        match self {
            LifecycleAction::Start => "Failed to start container",
            LifecycleAction::Stop => "Failed to stop container",
            LifecycleAction::Restart => "Failed to restart container",
            LifecycleAction::Pause => "Failed to pause container",
            LifecycleAction::Unpause => "Failed to unpause container",
        }
    }
}

/// The arguments of an action on a container: the subcommand, then
/// `--time` and the seconds where the action is a stop or a restart with a
/// timeout, then the container.
pub open spec fn lifecycle_args(
    action: LifecycleAction,
    container_id: Seq<char>,
    timeout: Option<u64>,
) -> Seq<Seq<char>> {
    if action.spec_takes_timeout() && timeout is Some {
        seq![action.spec_verb(), "--time"@, decimal_text(timeout->0 as nat), container_id]
    } else {
        seq![action.spec_verb(), container_id]
    }
}

/// The arguments of an action on the container `container_id`.
pub fn command_args(action: LifecycleAction, container_id: &str, timeout: Option<u64>) -> (args:
    Vec<String>)
    ensures
        text_views(args@) == lifecycle_args(action, container_id@, timeout),
{
    let mut args: Vec<String> = Vec::new();
    args.push(action.verb().to_string());
    let takes = match action {
        LifecycleAction::Stop | LifecycleAction::Restart => true,
        _ => false,
    };
    if takes {
        match timeout {
            Some(seconds) => {
                args.push("--time".to_string());
                let mut text = String::new();
                push_decimal(&mut text, seconds);
                assert(text@ =~= decimal_text(seconds as nat));
                args.push(text);
            },
            None => {},
        }
    }
    args.push(container_id.to_string());
    assert(text_views(args@) =~= lifecycle_args(action, container_id@, timeout));
    args
}

/// Whether an action worked, from what came of its command.
pub fn command_result(action: LifecycleAction, kind: RuntimeType, outcome: &RunOutcome) -> (r:
    Result<(), String>)
    ensures
        r is Ok <==> run_output(kind, action.spec_verb(), action.spec_failure(), outcome@) is Ok,
        r matches Err(message) ==> run_output(
            kind,
            action.spec_verb(),
            action.spec_failure(),
            outcome@,
        ) == Err::<Seq<char>, Seq<char>>(message@),
{
    match check_run(kind, action.verb(), action.failure(), outcome) {
        Ok(_) => Ok(()),
        Err(message) => Err(message),
    }
}

} // verus!
