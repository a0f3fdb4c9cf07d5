//! The detection of one engine, stage by stage.
//!
//! A detection goes through its stages in a fixed order: locate the
//! executable, verify that it may be executed, ask it for its version,
//! probe whether the engine answers and, for Podman, ask for its mode.
//! Each stage is outside work. This module decides: it says which work
//! comes next, takes what the work observed together with the time that
//! has passed since the start, and in the end assembles the result.
//!
//! The time budget is checked whenever a stage hands in its observation.
//! Work that is under way is never interrupted, but once the budget is
//! exceeded no further stage is started.

use crate::runtime::version::{
    meets_minimum, parse_error_text, parse_version, parse_version_spec, validate_minimum,
    version_text, VersionParseError,
};
use crate::text::{
    chars_to_string, contains_text, eq_ignore_ascii_case, str_to_chars, text_contains,
    text_eq_ignore_ascii_case, trim, trimmed,
};
use crate::types::{
    DetectionError, DetectionErrorView, DetectionResult, DetectionResultView, PodmanMode,
    Runtime, RuntimeStatus, RuntimeType, RuntimeView, Version, VersionView,
};
use vstd::prelude::*;
use vstd::string::StringExecFns;

verus! {

/// Where a detection stands.
#[derive(Debug, Clone, Copy, PartialEq, Eq, Structural)]
pub enum Stage {
    /// Looking for the executable on the search path and in the usual
    /// directories.
    Locate,
    /// Docker on Linux only: looking for `docker.exe` of the Windows side.
    LocateWsl,
    /// Checking that the executable may be executed.
    Verify,
    /// Asking the executable for its version.
    QueryVersion,
    /// Probing whether the engine answers.
    Probe,
    /// Podman only: asking whether it runs rootless.
    QueryMode,
    /// Nothing is left to do.
    Done,
}

/// How a detection ended, or that it has not ended yet.
pub enum Outcome {
    Pending,
    /// No executable was found. This is no error.
    NotInstalled,
    /// The detection failed, with this message.
    Failed(String),
    /// A runtime was found.
    Found,
}

/// The mathematical content of an [`Outcome`].
pub enum OutcomeView {
    Pending,
    NotInstalled,
    Failed(Seq<char>),
    Found,
}

impl View for Outcome {
    type V = OutcomeView;

    open spec fn view(&self) -> OutcomeView {
        match *self {
            Outcome::Pending => OutcomeView::Pending,
            Outcome::NotInstalled => OutcomeView::NotInstalled,
            Outcome::Failed(message) => OutcomeView::Failed(message@),
            Outcome::Found => OutcomeView::Found,
        }
    }
}

/// What a stage observed.
#[derive(Debug)]
pub enum Observation {
    /// The path of the executable, if one was found.
    Located(Option<String>),
    /// Whether the executable may be executed.
    Verified(bool),
    /// What the version subcommand printed, trimmed; or why it failed.
    VersionOutput(Result<String, String>),
    /// Whether the `info` subcommand ended well.
    Running(bool),
    /// What the mode query printed, if it ended well.
    ModeOutput(Option<String>),
}

/// The mathematical content of an [`Observation`].
pub enum ObservationView {
    Located(Option<Seq<char>>),
    Verified(bool),
    VersionOutput(Result<Seq<char>, Seq<char>>),
    Running(bool),
    ModeOutput(Option<Seq<char>>),
}

impl View for Observation {
    type V = ObservationView;

    open spec fn view(&self) -> ObservationView {
        match *self {
            Observation::Located(Some(path)) => ObservationView::Located(Some(path@)),
            Observation::Located(None) => ObservationView::Located(None),
            Observation::Verified(ok) => ObservationView::Verified(ok),
            Observation::VersionOutput(Ok(text)) => ObservationView::VersionOutput(Ok(text@)),
            Observation::VersionOutput(Err(why)) => ObservationView::VersionOutput(Err(why@)),
            Observation::Running(up) => ObservationView::Running(up),
            Observation::ModeOutput(Some(text)) => ObservationView::ModeOutput(Some(text@)),
            Observation::ModeOutput(None) => ObservationView::ModeOutput(None),
        }
    }
}

/// What came of running a subcommand of the executable.
#[derive(Debug)]
pub enum CommandOutcome {
    /// The process could not be started, for this reason.
    SpawnFailed(String),
    /// The process ended. `stdout` is what it printed, or the reason why
    /// that is no text.
    Exited { success: bool, stdout: Result<String, String> },
}

/// The mathematical content of a [`CommandOutcome`].
pub enum CommandOutcomeView {
    SpawnFailed(Seq<char>),
    Exited { success: bool, stdout: Result<Seq<char>, Seq<char>> },
}

impl View for CommandOutcome {
    type V = CommandOutcomeView;

    open spec fn view(&self) -> CommandOutcomeView {
        match *self {
            CommandOutcome::SpawnFailed(why) => CommandOutcomeView::SpawnFailed(why@),
            CommandOutcome::Exited { success, stdout: Ok(text) } => CommandOutcomeView::Exited {
                success,
                stdout: Ok(text@),
            },
            CommandOutcome::Exited { success, stdout: Err(why) } => CommandOutcomeView::Exited {
                success,
                stdout: Err(why@),
            },
        }
    }
}

/// What the version subcommand gave: its output without the white space
/// around it when it ended well and printed text, else the reason of the
/// failure. A process that ended badly fails with `<Engine> version
/// command failed`.
pub open spec fn version_output(
    kind: RuntimeType,
    outcome: CommandOutcomeView,
) -> Result<Seq<char>, Seq<char>> {
    match outcome {
        CommandOutcomeView::SpawnFailed(why) => Err(why),
        CommandOutcomeView::Exited { success, stdout } => if !success {
            Err(kind.spec_name() + " version command failed"@)
        } else {
            match stdout {
                Ok(text) => Ok(trimmed(text)),
                Err(why) => Err(why),
            }
        },
    }
}

/// Whether the engine answers: the `info` subcommand was started and ended
/// well.
pub open spec fn answers(outcome: CommandOutcomeView) -> bool {
    outcome matches CommandOutcomeView::Exited { success, .. } && success
}

/// What the mode query printed, if it was started, ended well and printed
/// text.
pub open spec fn mode_output(outcome: CommandOutcomeView) -> Option<Seq<char>> {
    match outcome {
        CommandOutcomeView::Exited { success: true, stdout: Ok(text) } => Some(text),
        _ => None,
    }
}

/// The message of a detection that ran out of time.
pub open spec fn timeout_message() -> Seq<char> {
    "Detection timeout exceeded"@
}

/// The message for an executable that may not be executed.
pub open spec fn permission_message() -> Seq<char> {
    "Executable lacks proper permissions"@
}

/// The message for a version output that holds no version.
pub open spec fn parse_failure_message(e: VersionParseError, output: Seq<char>) -> Seq<char> {
    "Failed to parse version: "@ + parse_error_text(e, output)
}

/// The message for a version subcommand that failed.
pub open spec fn query_failure_message(why: Seq<char>) -> Seq<char> {
    "Failed to get version: "@ + why
}

/// The mode that the output of the mode query stands for: rootful only
/// when the query ended well and printed `false`, in any mix of capitals
/// and with any white space around it; rootless in every other case.
pub open spec fn rootless_mode(output: Option<Seq<char>>) -> PodmanMode {
    match output {
        Some(text) => if eq_ignore_ascii_case(trimmed(text), "false"@) {
            PodmanMode::Rootful
        } else {
            PodmanMode::Rootless
        },
        None => PodmanMode::Rootless,
    }
}

/// The identifier of a runtime: the engine's lower-case name, a hyphen
/// and the path of the executable.
pub open spec fn runtime_id(kind: RuntimeType, path: Seq<char>) -> Seq<char> {
    kind.spec_id_prefix() + "-"@ + path
}

/// The mathematical content of a [`Detection`].
pub struct DetectionView {
    pub kind: RuntimeType,
    /// The time budget in milliseconds.
    pub timeout_ms: nat,
    /// Whether the host is Linux, where Docker may live on the Windows side.
    pub on_linux: bool,
    pub stage: Stage,
    pub path: Option<Seq<char>>,
    pub version: Option<VersionView>,
    pub status: RuntimeStatus,
    pub mode: Option<PodmanMode>,
    pub outcome: OutcomeView,
}

impl DetectionView {
    /// A detection that has not done anything yet.
    pub open spec fn initial(kind: RuntimeType, timeout_ms: nat, on_linux: bool) -> Self {
        DetectionView {
            kind,
            timeout_ms,
            on_linux,
            stage: Stage::Locate,
            path: None,
            version: None,
            status: RuntimeStatus::Unknown,
            mode: None,
            outcome: OutcomeView::Pending,
        }
    }

    /// Whether the state is one that a detection can be in: it has ended
    /// exactly when it is done, a failure names a path, a runtime that was
    /// found has a path and a version, and only Podman has a mode.
    pub open spec fn wf(self) -> bool {
        &&& (self.stage == Stage::Done <==> !(self.outcome is Pending))
        &&& (self.outcome is Failed ==> self.path is Some)
        &&& (self.outcome is Found ==> self.path is Some && self.version is Some)
        &&& (self.stage == Stage::Verify || self.stage == Stage::QueryVersion || self.stage
            == Stage::Probe || self.stage == Stage::QueryMode ==> self.path is Some)
        &&& (self.stage == Stage::Probe || self.stage == Stage::QueryMode ==> self.version
            is Some)
        &&& (self.stage == Stage::QueryMode ==> self.kind == RuntimeType::Podman)
        &&& (self.stage == Stage::LocateWsl ==> self.kind == RuntimeType::Docker && self.path
            is None)
        &&& (self.stage == Stage::Locate ==> self.path is None)
        &&& (self.outcome is NotInstalled ==> self.path is None)
        &&& (self.kind == RuntimeType::Docker ==> self.mode is None)
        &&& (self.outcome is Found && self.kind == RuntimeType::Podman ==> self.mode is Some)
    }

    /// Whether `observation` is the one that the present stage waits for.
    pub open spec fn expects(self, observation: ObservationView) -> bool {
        match self.stage {
            Stage::Locate | Stage::LocateWsl => observation is Located,
            Stage::Verify => observation is Verified,
            Stage::QueryVersion => observation is VersionOutput,
            Stage::Probe => observation is Running,
            Stage::QueryMode => observation is ModeOutput,
            Stage::Done => false,
        }
    }

    /// The detection ended with the failure `message`.
    pub open spec fn failed(self, message: Seq<char>) -> Self {
        DetectionView { stage: Stage::Done, outcome: OutcomeView::Failed(message), ..self }
    }

    /// The detection ended without an executable.
    pub open spec fn not_installed(self) -> Self {
        DetectionView { stage: Stage::Done, outcome: OutcomeView::NotInstalled, ..self }
    }

    /// The detection ended with a runtime.
    pub open spec fn found(self) -> Self {
        DetectionView { stage: Stage::Done, outcome: OutcomeView::Found, ..self }
    }

    /// The detection after `observation` came in, `elapsed_ms` after the
    /// start.
    ///
    /// An observation that the present stage does not wait for changes
    /// nothing. Otherwise the budget is checked first: once it is exceeded
    /// the detection ends, with the timeout message if an executable is
    /// known by then and silently if not. Within the budget the observation
    /// decides what comes next.
    pub open spec fn step(self, observation: ObservationView, elapsed_ms: nat) -> Self {
        if !self.expects(observation) {
            self
        } else {
            let known = match observation {
                ObservationView::Located(Some(path)) => DetectionView { path: Some(path), ..self },
                _ => self,
            };
            if elapsed_ms > self.timeout_ms {
                if known.path is Some {
                    known.failed(timeout_message())
                } else {
                    known.not_installed()
                }
            } else {
                match observation {
                    ObservationView::Located(Some(path)) => DetectionView {
                        stage: Stage::Verify,
                        ..known
                    },
                    ObservationView::Located(None) => if self.stage == Stage::Locate && self.kind
                        == RuntimeType::Docker && self.on_linux {
                        DetectionView { stage: Stage::LocateWsl, ..self }
                    } else {
                        self.not_installed()
                    },
                    ObservationView::Verified(ok) => if ok {
                        DetectionView { stage: Stage::QueryVersion, ..self }
                    } else {
                        self.failed(permission_message())
                    },
                    ObservationView::VersionOutput(Ok(output)) => match parse_version_spec(
                        output,
                    ) {
                        Ok(n) => DetectionView {
                            stage: Stage::Probe,
                            version: Some(
                                VersionView {
                                    major: n.0,
                                    minor: n.1,
                                    patch: n.2,
                                    full: version_text(n.0, n.1, n.2),
                                },
                            ),
                            ..self
                        },
                        Err(e) => self.failed(parse_failure_message(e, output)),
                    },
                    ObservationView::VersionOutput(Err(why)) => self.failed(
                        query_failure_message(why),
                    ),
                    ObservationView::Running(up) => {
                        let probed = DetectionView {
                            status: if up {
                                RuntimeStatus::Running
                            } else {
                                RuntimeStatus::Stopped
                            },
                            ..self
                        };
                        if self.kind == RuntimeType::Podman {
                            DetectionView { stage: Stage::QueryMode, ..probed }
                        } else {
                            probed.found()
                        }
                    },
                    ObservationView::ModeOutput(output) => (DetectionView {
                        mode: Some(rootless_mode(output)),
                        ..self
                    }).found(),
                }
            }
        }
    }

    /// The runtime that a detection found, as seen at the time `now`.
    pub open spec fn runtime(self, now: int) -> RuntimeView
        recommends
            self.path is Some,
            self.version is Some,
    {
        let path = self.path->0;
        let version = self.version->0;
        RuntimeView {
            id: runtime_id(self.kind, path),
            runtime_type: self.kind,
            path,
            version,
            status: self.status,
            last_checked: now,
            detected_at: now,
            mode: self.mode,
            is_wsl: if self.kind == RuntimeType::Docker && self.on_linux && contains_text(
                path,
                ".exe"@,
            ) {
                Some(true)
            } else {
                None
            },
            error: None,
            version_warning: if meets_minimum(
                (version.major, version.minor, version.patch),
                self.kind,
            ) {
                None
            } else {
                Some(true)
            },
        }
    }

    /// The result of a detection that ended at the time `now` after
    /// `duration_ms`: one runtime if one was found, one error if the
    /// detection failed, and neither otherwise.
    pub open spec fn result(self, now: int, duration_ms: nat) -> DetectionResultView {
        DetectionResultView {
            runtimes: if self.outcome is Found && self.path is Some && self.version is Some {
                seq![self.runtime(now)]
            } else {
                Seq::empty()
            },
            detected_at: now,
            duration: duration_ms,
            errors: match self.outcome {
                OutcomeView::Failed(message) => if self.path is Some {
                    seq![
                        DetectionErrorView {
                            runtime: self.kind,
                            path: self.path->0,
                            error: message,
                        },
                    ]
                } else {
                    Seq::empty()
                },
                _ => Seq::empty(),
            },
        }
    }
}

/// The mode that the output of Podman's mode query stands for.
///
/// Rootful only when the query ended well and printed `false`; rootless
/// when it printed `true`, anything else, or failed.
pub fn parse_rootless_mode(output: &Option<String>) -> (mode: PodmanMode)
    ensures
        mode == rootless_mode(
            match *output {
                Some(text) => Some(text@),
                None => None,
            },
        ),
{
    match output {
        Some(text) => {
            let chars = str_to_chars(text.as_str());
            let word = trim(chars.as_slice());
            let no = str_to_chars("false");
            if text_eq_ignore_ascii_case(word.as_slice(), no.as_slice()) {
                PodmanMode::Rootful
            } else {
                PodmanMode::Rootless
            }
        },
        None => PodmanMode::Rootless,
    }
}

/// The observation of the version stage, from what came of running
/// `--version`.
pub fn version_observation(kind: RuntimeType, outcome: CommandOutcome) -> (observation:
    Observation)
    ensures
        observation@ == ObservationView::VersionOutput(version_output(kind, outcome@)),
{
    match outcome {
        CommandOutcome::SpawnFailed(why) => Observation::VersionOutput(Err(why)),
        CommandOutcome::Exited { success, stdout } => {
            if !success {
                let mut message = kind.to_string();
                message.append(" version command failed");
                Observation::VersionOutput(Err(message))
            } else {
                match stdout {
                    Ok(text) => {
                        let chars = str_to_chars(text.as_str());
                        let word = trim(chars.as_slice());
                        Observation::VersionOutput(Ok(chars_to_string(word.as_slice())))
                    },
                    Err(why) => Observation::VersionOutput(Err(why)),
                }
            }
        },
    }
}

/// The observation of the probe stage, from what came of running `info`.
pub fn running_observation(outcome: &CommandOutcome) -> (observation: Observation)
    ensures
        observation@ == ObservationView::Running(answers(outcome@)),
{
    match outcome {
        CommandOutcome::Exited { success, .. } => Observation::Running(*success),
        CommandOutcome::SpawnFailed(_) => Observation::Running(false),
    }
}

/// The observation of the mode stage, from what came of running the mode
/// query.
pub fn mode_observation(outcome: CommandOutcome) -> (observation: Observation)
    ensures
        observation@ == ObservationView::ModeOutput(mode_output(outcome@)),
{
    match outcome {
        CommandOutcome::Exited { success, stdout } => {
            if success {
                match stdout {
                    Ok(text) => Observation::ModeOutput(Some(text)),
                    Err(_) => Observation::ModeOutput(None),
                }
            } else {
                Observation::ModeOutput(None)
            }
        },
        CommandOutcome::SpawnFailed(_) => Observation::ModeOutput(None),
    }
}

/// One detection of one engine, from its start to its result.
pub struct Detection {
    kind: RuntimeType,
    timeout_ms: u64,
    on_linux: bool,
    stage: Stage,
    path: Option<String>,
    version: Option<Version>,
    status: RuntimeStatus,
    mode: Option<PodmanMode>,
    outcome: Outcome,
}

impl View for Detection {
    type V = DetectionView;

    closed spec fn view(&self) -> DetectionView {
        DetectionView {
            kind: self.kind,
            timeout_ms: self.timeout_ms as nat,
            on_linux: self.on_linux,
            stage: self.stage,
            path: match self.path {
                Some(path) => Some(path@),
                None => None,
            },
            version: match self.version {
                Some(version) => Some(version@),
                None => None,
            },
            status: self.status,
            mode: self.mode,
            outcome: self.outcome@,
        }
    }
}

impl Detection {
    /// A detection of `kind` with a budget of `timeout_ms` milliseconds,
    /// about to locate the executable.
    pub fn new(kind: RuntimeType, timeout_ms: u64, on_linux: bool) -> (detection: Self)
        ensures
            detection@ == DetectionView::initial(kind, timeout_ms as nat, on_linux),
            detection@.wf(),
    {
        Detection {
            kind,
            timeout_ms,
            on_linux,
            stage: Stage::Locate,
            path: None,
            version: None,
            status: RuntimeStatus::Unknown,
            mode: None,
            outcome: Outcome::Pending,
        }
    }

    /// The engine that is being detected.
    pub fn kind(&self) -> (kind: RuntimeType)
        ensures
            kind == self@.kind,
    {
        self.kind
    }

    /// The stage whose work is to be done next.
    pub fn stage(&self) -> (stage: Stage)
        ensures
            stage == self@.stage,
    {
        self.stage
    }

    /// Whether nothing is left to do.
    pub fn is_done(&self) -> (done: bool)
        ensures
            done == (self@.stage == Stage::Done),
    {
        match self.stage {
            Stage::Done => true,
            _ => false,
        }
    }

    /// The path of the executable, once it is known.
    pub fn path(&self) -> (path: Option<String>)
        ensures
            crate::types::opt_text(path) == self@.path,
    {
        match &self.path {
            Some(path) => Some(path.clone()),
            None => None,
        }
    }

    /// Ends the detection with a failure.
    fn end_failed(&mut self, message: String)
        ensures
            final(self)@ == old(self)@.failed(message@),
    {
        self.stage = Stage::Done;
        self.outcome = Outcome::Failed(message);
    }

    /// Ends the detection without an executable.
    fn end_not_installed(&mut self)
        ensures
            final(self)@ == old(self)@.not_installed(),
    {
        self.stage = Stage::Done;
        self.outcome = Outcome::NotInstalled;
    }

    /// Ends the detection with a runtime.
    fn end_found(&mut self)
        ensures
            final(self)@ == old(self)@.found(),
    {
        self.stage = Stage::Done;
        self.outcome = Outcome::Found;
    }

    /// Ends the detection because the budget is exceeded.
    fn end_timed_out(&mut self)
        ensures
            final(self)@ == (if old(self)@.path is Some {
                old(self)@.failed(timeout_message())
            } else {
                old(self)@.not_installed()
            }),
    {
        if self.path.is_some() {
            self.end_failed("Detection timeout exceeded".to_string());
        } else {
            self.end_not_installed();
        }
    }

    /// Whether the present stage waits for `observation`.
    fn waits_for(&self, observation: &Observation) -> (b: bool)
        ensures
            b == self@.expects(observation@),
    {
        match self.stage {
            Stage::Locate | Stage::LocateWsl => match observation {
                Observation::Located(_) => true,
                _ => false,
            },
            Stage::Verify => match observation {
                Observation::Verified(_) => true,
                _ => false,
            },
            Stage::QueryVersion => match observation {
                Observation::VersionOutput(_) => true,
                _ => false,
            },
            Stage::Probe => match observation {
                Observation::Running(_) => true,
                _ => false,
            },
            Stage::QueryMode => match observation {
                Observation::ModeOutput(_) => true,
                _ => false,
            },
            Stage::Done => false,
        }
    }

    /// Takes in what the present stage observed, `elapsed_ms` milliseconds
    /// after the start, and says which stage comes next.
    ///
    /// An observation that the present stage does not wait for is ignored.
    pub fn advance(&mut self, observation: Observation, elapsed_ms: u64) -> (next: Stage)
        ensures
            final(self)@ == old(self)@.step(observation@, elapsed_ms as nat),
            next == final(self)@.stage,
            old(self)@.wf() ==> final(self)@.wf(),
    {
        proof {
            if self@.wf() {
                lemma_step_keeps_wf(self@, observation@, elapsed_ms as nat);
            }
        }
        if !self.waits_for(&observation) {
            return self.stage;
        }
        let timed_out = elapsed_ms > self.timeout_ms;
        match observation {
            Observation::Located(Some(path)) => {
                self.path = Some(path);
                if timed_out {
                    self.end_timed_out();
                } else {
                    self.stage = Stage::Verify;
                }
            },
            Observation::Located(None) => {
                if timed_out {
                    self.end_timed_out();
                } else {
                    let first = match self.stage {
                        Stage::Locate => true,
                        _ => false,
                    };
                    let docker = match self.kind {
                        RuntimeType::Docker => true,
                        RuntimeType::Podman => false,
                    };
                    if first && docker && self.on_linux {
                        self.stage = Stage::LocateWsl;
                    } else {
                        self.end_not_installed();
                    }
                }
            },
            Observation::Verified(ok) => {
                if timed_out {
                    self.end_timed_out();
                } else if ok {
                    self.stage = Stage::QueryVersion;
                } else {
                    self.end_failed("Executable lacks proper permissions".to_string());
                }
            },
            Observation::VersionOutput(Ok(output)) => {
                if timed_out {
                    self.end_timed_out();
                } else {
                    match parse_version(output.as_str()) {
                        Ok(version) => {
                            self.version = Some(version);
                            self.stage = Stage::Probe;
                        },
                        Err(e) => {
                            let mut message = "Failed to parse version: ".to_string();
                            let why = e.describe(output.as_str());
                            message.append(why.as_str());
                            self.end_failed(message);
                        },
                    }
                }
            },
            Observation::VersionOutput(Err(why)) => {
                if timed_out {
                    self.end_timed_out();
                } else {
                    let mut message = "Failed to get version: ".to_string();
                    message.append(why.as_str());
                    self.end_failed(message);
                }
            },
            Observation::Running(up) => {
                if timed_out {
                    self.end_timed_out();
                } else {
                    self.status = if up {
                        RuntimeStatus::Running
                    } else {
                        RuntimeStatus::Stopped
                    };
                    match self.kind {
                        RuntimeType::Podman => {
                            self.stage = Stage::QueryMode;
                        },
                        RuntimeType::Docker => {
                            self.end_found();
                        },
                    }
                }
            },
            Observation::ModeOutput(output) => {
                if timed_out {
                    self.end_timed_out();
                } else {
                    self.mode = Some(parse_rootless_mode(&output));
                    self.end_found();
                }
            },
        }
        self.stage
    }

    /// The result of the detection as it stands, stamped with the time
    /// `now` and the duration `duration_ms`.
    ///
    /// A detection that found a runtime gives that runtime and no error;
    /// one that failed gives one error and no runtime; one that found no
    /// executable, or has not ended, gives neither.
    pub fn finish(&self, now: i64, duration_ms: u64) -> (result: DetectionResult)
        ensures
            result@ == self@.result(now as int, duration_ms as nat),
    {
        let mut runtimes: Vec<Runtime> = Vec::new();
        let mut errors: Vec<DetectionError> = Vec::new();
        match &self.outcome {
            Outcome::Found => {
                match (&self.path, &self.version) {
                    (Some(path), Some(version)) => {
                        let mut id = self.kind.id_prefix().to_string();
                        id.append("-");
                        id.append(path.as_str());
                        let chars = str_to_chars(path.as_str());
                        let exe = str_to_chars(".exe");
                        let docker = match self.kind {
                            RuntimeType::Docker => true,
                            RuntimeType::Podman => false,
                        };
                        let is_wsl = if docker && self.on_linux && text_contains(
                            chars.as_slice(),
                            exe.as_slice(),
                        ) {
                            Some(true)
                        } else {
                            None
                        };
                        let version_warning = if validate_minimum(version, self.kind) {
                            None
                        } else {
                            Some(true)
                        };
                        runtimes.push(
                            Runtime {
                                id,
                                runtime_type: self.kind,
                                path: path.clone(),
                                version: version.duplicate(),
                                status: self.status,
                                last_checked: now,
                                detected_at: now,
                                mode: self.mode,
                                is_wsl,
                                error: None,
                                version_warning,
                            },
                        );
                    },
                    _ => {},
                }
            },
            Outcome::Failed(message) => {
                match &self.path {
                    Some(path) => {
                        errors.push(
                            DetectionError {
                                runtime: self.kind,
                                path: path.clone(),
                                error: message.clone(),
                            },
                        );
                    },
                    None => {},
                }
            },
            _ => {},
        }
        let result = DetectionResult { runtimes, detected_at: now, duration: duration_ms, errors };
        assert(result@.runtimes =~= self@.result(now as int, duration_ms as nat).runtimes);
        assert(result@.errors =~= self@.result(now as int, duration_ms as nat).errors);
        result
    }
}

/// Every step leaves a detection in a state that a detection can be in.
pub proof fn lemma_step_keeps_wf(
    detection: DetectionView,
    observation: ObservationView,
    elapsed_ms: nat,
)
    requires
        detection.wf(),
    ensures
        detection.step(observation, elapsed_ms).wf(),
{
}

/// A detection gives one runtime, or one error, or neither, and never a
/// runtime together with an error: the runtime of a failed detection is
/// left out, not handed on half filled.
pub proof fn lemma_result_shape(detection: DetectionView, now: int, duration_ms: nat)
    requires
        detection.wf(),
    ensures
        detection.result(now, duration_ms).runtimes.len() + detection.result(
            now,
            duration_ms,
        ).errors.len() <= 1,
        detection.result(now, duration_ms).runtimes.len() == 1 <==> detection.outcome is Found,
        detection.result(now, duration_ms).errors.len() == 1 <==> detection.outcome is Failed,
{
}

/// An engine that is not installed is no error: when no executable is
/// found the result holds no runtime and no error.
pub proof fn lemma_not_installed_is_silent(
    kind: RuntimeType,
    timeout_ms: nat,
    on_linux: bool,
    elapsed_ms: nat,
    wsl_elapsed_ms: nat,
    now: int,
    duration_ms: nat,
)
    ensures
        ({
            let first = DetectionView::initial(kind, timeout_ms, on_linux).step(
                ObservationView::Located(None),
                elapsed_ms,
            );
            let last = if first.stage == Stage::LocateWsl {
                first.step(ObservationView::Located(None), wsl_elapsed_ms)
            } else {
                first
            };
            &&& last.stage == Stage::Done
            &&& last.outcome is NotInstalled
            &&& last.result(now, duration_ms).runtimes.len() == 0
            &&& last.result(now, duration_ms).errors.len() == 0
        }),
{
}

/// The runtime that a detection found belongs to the engine that was
/// looked for, is named after that engine and the executable's path, and
/// carries a warning exactly when its version is below the minimum: an old
/// version is reported, never turned into a failure.
pub proof fn lemma_found_runtime(detection: DetectionView, now: int, duration_ms: nat)
    requires
        detection.wf(),
        detection.outcome is Found,
    ensures
        ({
            let result = detection.result(now, duration_ms);
            let version = detection.version->0;
            &&& result.runtimes.len() == 1
            &&& result.errors.len() == 0
            &&& result.runtimes[0].runtime_type == detection.kind
            &&& result.runtimes[0].id == runtime_id(detection.kind, detection.path->0)
            &&& result.runtimes[0].path == detection.path->0
            &&& (result.runtimes[0].version_warning == Some(true) <==> !meets_minimum(
                (version.major, version.minor, version.patch),
                detection.kind,
            ))
            &&& (result.runtimes[0].mode is Some <==> detection.kind == RuntimeType::Podman)
        }),
{
}

/// Once the budget is exceeded no further stage is started: whatever
/// comes in after that ends the detection, and it ends without a runtime.
pub proof fn lemma_timeout_ends_detection(
    detection: DetectionView,
    observation: ObservationView,
    elapsed_ms: nat,
)
    requires
        detection.wf(),
        detection.expects(observation),
        elapsed_ms > detection.timeout_ms,
    ensures
        detection.step(observation, elapsed_ms).stage == Stage::Done,
        !(detection.step(observation, elapsed_ms).outcome is Found),
        detection.step(observation, elapsed_ms).path is Some ==> detection.step(
            observation,
            elapsed_ms,
        ).outcome == OutcomeView::Failed(timeout_message()),
{
}

/// A detection that is done stays as it is, whatever comes in.
pub proof fn lemma_done_is_final(
    detection: DetectionView,
    observation: ObservationView,
    elapsed_ms: nat,
)
    requires
        detection.stage == Stage::Done,
    ensures
        detection.step(observation, elapsed_ms) == detection,
{
}

/// An executable that may not be executed ends the detection with the
/// permission message and without a runtime.
pub proof fn lemma_unusable_executable(detection: DetectionView, elapsed_ms: nat)
    requires
        detection.wf(),
        detection.stage == Stage::Verify,
        elapsed_ms <= detection.timeout_ms,
    ensures
        detection.step(ObservationView::Verified(false), elapsed_ms).outcome
            == OutcomeView::Failed(permission_message()),
        detection.step(ObservationView::Verified(true), elapsed_ms).stage
            == Stage::QueryVersion,
{
}

} // verus!
