//! The records that detection and polling exchange.

use vstd::prelude::*;

verus! {

/// The container engines that can be detected.
#[derive(Debug, Clone, Copy, PartialEq, Eq, Hash, Structural)]
pub enum RuntimeType {
    Docker,
    Podman,
}

/// What a liveness probe says about a runtime.
///
/// `Error` is kept for denied permissions and `Unknown` for a probe that
/// did not finish in time; a daemon that is merely absent is `Stopped`.
#[derive(Debug, Clone, Copy, PartialEq, Eq, Structural)]
pub enum RuntimeStatus {
    Running,
    Stopped,
    Error,
    Unknown,
}

/// Whether Podman runs with or without elevated privileges.
#[derive(Debug, Clone, Copy, PartialEq, Eq, Structural)]
pub enum PodmanMode {
    Rootful,
    Rootless,
}

/// A parsed `major.minor.patch` version.
#[derive(Debug)]
pub struct Version {
    pub major: u32,
    pub minor: u32,
    pub patch: u32,
    /// The three numbers joined by dots.
    pub full: String,
}

/// The mathematical content of a [`Version`].
pub struct VersionView {
    pub major: nat,
    pub minor: nat,
    pub patch: nat,
    pub full: Seq<char>,
}

impl View for Version {
    type V = VersionView;

    open spec fn view(&self) -> VersionView {
        VersionView {
            major: self.major as nat,
            minor: self.minor as nat,
            patch: self.patch as nat,
            full: self.full@,
        }
    }
}

impl Version {
    /// A copy with the same numbers and the same text.
    pub fn duplicate(&self) -> (v: Version)
        ensures
            v@ == self@,
    {
        Version {
            major: self.major,
            minor: self.minor,
            patch: self.patch,
            full: self.full.clone(),
        }
    }
}

impl Clone for Version {
    fn clone(&self) -> (v: Version)
        ensures
            v@ == self@,
    {
        self.duplicate()
    }
}

impl RuntimeType {
    /// The capitalised name of the engine.
    pub open spec fn spec_name(self) -> Seq<char> {
        match self {
            RuntimeType::Docker => "Docker"@,
            RuntimeType::Podman => "Podman"@,
        }
    }

    /// The lower-case word that starts the identifiers of this engine's
    /// runtimes.
    pub open spec fn spec_id_prefix(self) -> Seq<char> {
        match self {
            RuntimeType::Docker => "docker"@,
            RuntimeType::Podman => "podman"@,
        }
    }

    /// The capitalised name of the engine, `"Docker"` or `"Podman"`.
    pub fn to_string(&self) -> (s: String)
        ensures
            s@ == self.spec_name(),
    {
        match self {
            RuntimeType::Docker => "Docker".to_string(),
            RuntimeType::Podman => "Podman".to_string(),
        }
    }

    /// The lower-case word `"docker"` or `"podman"`.
    pub fn id_prefix(&self) -> (s: &'static str)
        ensures
            s@ == self.spec_id_prefix(),
    {
        match self {
            RuntimeType::Docker => "docker",
            RuntimeType::Podman => "podman",
        }
    }
}

/// The view of an optional string.
pub open spec fn opt_text(o: Option<String>) -> Option<Seq<char>> {
    match o {
        Some(s) => Some(s@),
        None => None,
    }
}

/// A copy of an optional string.
pub fn duplicate_opt_text(o: &Option<String>) -> (r: Option<String>)
    ensures
        opt_text(r) == opt_text(*o),
{
    match o {
        Some(s) => Some(s.clone()),
        None => None,
    }
}

/// One installed runtime: a Docker or Podman executable on disk.
///
/// Times are milliseconds since the Unix epoch, in UTC.
#[derive(Debug)]
pub struct Runtime {
    /// The engine's lower-case name, a hyphen and the executable's path.
    pub id: String,
    pub runtime_type: RuntimeType,
    pub path: String,
    pub version: Version,
    pub status: RuntimeStatus,
    pub last_checked: i64,
    pub detected_at: i64,
    /// Podman only.
    pub mode: Option<PodmanMode>,
    /// Set for a Docker of the Windows side seen from inside WSL.
    pub is_wsl: Option<bool>,
    pub error: Option<String>,
    /// Set when the version is below the supported minimum.
    pub version_warning: Option<bool>,
}

/// The mathematical content of a [`Runtime`].
pub struct RuntimeView {
    pub id: Seq<char>,
    pub runtime_type: RuntimeType,
    pub path: Seq<char>,
    pub version: VersionView,
    pub status: RuntimeStatus,
    pub last_checked: int,
    pub detected_at: int,
    pub mode: Option<PodmanMode>,
    pub is_wsl: Option<bool>,
    pub error: Option<Seq<char>>,
    pub version_warning: Option<bool>,
}

impl View for Runtime {
    type V = RuntimeView;

    open spec fn view(&self) -> RuntimeView {
        RuntimeView {
            id: self.id@,
            runtime_type: self.runtime_type,
            path: self.path@,
            version: self.version@,
            status: self.status,
            last_checked: self.last_checked as int,
            detected_at: self.detected_at as int,
            mode: self.mode,
            is_wsl: self.is_wsl,
            error: opt_text(self.error),
            version_warning: self.version_warning,
        }
    }
}

impl Runtime {
    /// A copy that holds the same values.
    pub fn duplicate(&self) -> (r: Runtime)
        ensures
            r@ == self@,
    {
        Runtime {
            id: self.id.clone(),
            runtime_type: self.runtime_type,
            path: self.path.clone(),
            version: self.version.duplicate(),
            status: self.status,
            last_checked: self.last_checked,
            detected_at: self.detected_at,
            mode: self.mode,
            is_wsl: self.is_wsl,
            error: duplicate_opt_text(&self.error),
            version_warning: self.version_warning,
        }
    }
}

impl Clone for Runtime {
    fn clone(&self) -> (r: Runtime)
        ensures
            r@ == self@,
    {
        self.duplicate()
    }
}

/// A failure met while detecting one engine. It never stops the detection
/// of another engine.
#[derive(Debug)]
pub struct DetectionError {
    pub runtime: RuntimeType,
    pub path: String,
    pub error: String,
}

/// The mathematical content of a [`DetectionError`].
pub struct DetectionErrorView {
    pub runtime: RuntimeType,
    pub path: Seq<char>,
    pub error: Seq<char>,
}

impl View for DetectionError {
    type V = DetectionErrorView;

    open spec fn view(&self) -> DetectionErrorView {
        DetectionErrorView { runtime: self.runtime, path: self.path@, error: self.error@ }
    }
}

impl DetectionError {
    /// A copy that holds the same values.
    pub fn duplicate(&self) -> (r: DetectionError)
        ensures
            r@ == self@,
    {
        DetectionError {
            runtime: self.runtime,
            path: self.path.clone(),
            error: self.error.clone(),
        }
    }
}

impl Clone for DetectionError {
    fn clone(&self) -> (r: DetectionError)
        ensures
            r@ == self@,
    {
        self.duplicate()
    }
}

/// The views of a list of runtimes, in order.
pub open spec fn runtime_views(v: Seq<Runtime>) -> Seq<RuntimeView> {
    v.map_values(|r: Runtime| r@)
}

/// The views of a list of detection errors, in order.
pub open spec fn error_views(v: Seq<DetectionError>) -> Seq<DetectionErrorView> {
    v.map_values(|e: DetectionError| e@)
}

/// A copy of a list of runtimes.
pub fn duplicate_runtimes(v: &Vec<Runtime>) -> (r: Vec<Runtime>)
    ensures
        runtime_views(r@) == runtime_views(v@),
{
    let mut r: Vec<Runtime> = Vec::new();
    let mut i: usize = 0;
    while i < v.len()
        invariant
            i <= v.len(),
            r.len() == i,
            forall|k: int| 0 <= k < i ==> (#[trigger] r@[k])@ == v@[k]@,
        decreases v.len() - i,
    {
        r.push(v[i].duplicate());
        i += 1;
    }
    assert(runtime_views(r@) =~= runtime_views(v@));
    r
}

/// A copy of a list of detection errors.
pub fn duplicate_errors(v: &Vec<DetectionError>) -> (r: Vec<DetectionError>)
    ensures
        error_views(r@) == error_views(v@),
{
    let mut r: Vec<DetectionError> = Vec::new();
    let mut i: usize = 0;
    while i < v.len()
        invariant
            i <= v.len(),
            r.len() == i,
            forall|k: int| 0 <= k < i ==> (#[trigger] r@[k])@ == v@[k]@,
        decreases v.len() - i,
    {
        r.push(v[i].duplicate());
        i += 1;
    }
    assert(error_views(r@) =~= error_views(v@));
    r
}

/// What one detection pass for one engine found.
#[derive(Debug)]
pub struct DetectionResult {
    pub runtimes: Vec<Runtime>,
    /// Milliseconds since the Unix epoch, in UTC.
    pub detected_at: i64,
    /// How long the pass took, in milliseconds.
    pub duration: u64,
    pub errors: Vec<DetectionError>,
}

/// The mathematical content of a [`DetectionResult`].
pub struct DetectionResultView {
    pub runtimes: Seq<RuntimeView>,
    pub detected_at: int,
    pub duration: nat,
    pub errors: Seq<DetectionErrorView>,
}

impl View for DetectionResult {
    type V = DetectionResultView;

    open spec fn view(&self) -> DetectionResultView {
        DetectionResultView {
            runtimes: runtime_views(self.runtimes@),
            detected_at: self.detected_at as int,
            duration: self.duration as nat,
            errors: error_views(self.errors@),
        }
    }
}

impl DetectionResult {
    /// A copy that holds the same values.
    pub fn duplicate(&self) -> (r: DetectionResult)
        ensures
            r@ == self@,
    {
        DetectionResult {
            runtimes: duplicate_runtimes(&self.runtimes),
            detected_at: self.detected_at,
            duration: self.duration,
            errors: duplicate_errors(&self.errors),
        }
    }
}

impl Clone for DetectionResult {
    fn clone(&self) -> (r: DetectionResult)
        ensures
            r@ == self@,
    {
        self.duplicate()
    }
}

/// The event sent after each probe of a runtime.
#[derive(Debug)]
pub struct StatusUpdate {
    pub runtime_id: String,
    pub status: RuntimeStatus,
    /// Milliseconds since the Unix epoch, in UTC.
    pub timestamp: i64,
    pub error: Option<String>,
}

/// The mathematical content of a [`StatusUpdate`].
pub struct StatusUpdateView {
    pub runtime_id: Seq<char>,
    pub status: RuntimeStatus,
    pub timestamp: int,
    pub error: Option<Seq<char>>,
}

impl View for StatusUpdate {
    type V = StatusUpdateView;

    open spec fn view(&self) -> StatusUpdateView {
        StatusUpdateView {
            runtime_id: self.runtime_id@,
            status: self.status,
            timestamp: self.timestamp as int,
            error: opt_text(self.error),
        }
    }
}

/// What the user chose: which runtime to use and how often to look.
#[derive(Debug)]
pub struct RuntimePreferences {
    pub selected_runtime_id: Option<String>,
    pub auto_select_running: bool,
    pub preferred_type: Option<RuntimeType>,
    /// Seconds for which a detection result stays valid.
    pub detection_cache_ttl: u64,
    /// Seconds between two status polls.
    pub status_poll_interval: u64,
}

impl Default for RuntimePreferences {
    /// No runtime selected, a running one picked automatically, Docker
    /// preferred, results cached for 60 s and status polled every 5 s.
    fn default() -> (p: RuntimePreferences)
        ensures
            p.selected_runtime_id is None,
            p.auto_select_running,
            p.preferred_type == Some(RuntimeType::Docker),
            p.detection_cache_ttl == 60,
            p.status_poll_interval == 5,
    {
        RuntimePreferences {
            selected_runtime_id: None,
            auto_select_running: true,
            preferred_type: Some(RuntimeType::Docker),
            detection_cache_ttl: 60,
            status_poll_interval: 5,
        }
    }
}

} // verus!
