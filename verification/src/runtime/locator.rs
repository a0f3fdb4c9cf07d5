//! Choosing the executable of an engine among what was seen on disk.
//!
//! The lookups themselves are outside work. What they saw comes in as
//! plain facts, and this module picks: a hit on the search path wins, then
//! the first of the usual places that holds the executable.

use crate::text::{
    copy_range, eq_ignore_ascii_case, str_to_chars, text_eq, text_eq_ignore_ascii_case,
};
use vstd::prelude::*;

verus! {

/// The kind of host that the detection runs on.
#[derive(Debug, Clone, Copy, PartialEq, Eq, Structural)]
pub enum Platform {
    Windows,
    MacOs,
    Linux,
    /// A Unix that is neither macOS nor Linux.
    OtherUnix,
    /// Neither Windows nor a Unix.
    Other,
}

impl Platform {
    /// Whether files carry Unix permission bits on this platform.
    pub open spec fn spec_is_unix(self) -> bool {
        self == Platform::MacOs || self == Platform::Linux || self == Platform::OtherUnix
    }

    /// Whether files carry Unix permission bits on this platform.
    pub fn is_unix(&self) -> (b: bool)
        ensures
            b == self.spec_is_unix(),
    {
        match self {
            Platform::MacOs | Platform::Linux | Platform::OtherUnix => true,
            _ => false,
        }
    }
}

/// What the file system says about a path.
#[derive(Debug, Clone, Copy, PartialEq, Eq, Structural)]
pub struct FileFacts {
    /// Whether the metadata of the path could be read.
    pub readable: bool,
    /// Whether the path is a regular file.
    pub is_file: bool,
    /// The Unix permission bits; zero where there are none.
    pub mode: u32,
}

/// Whether a file with these facts may be executed: on a Unix, when its
/// metadata can be read and any of the three execute bits is set; on
/// Windows, when it is a regular file; elsewhere, never.
pub open spec fn is_executable(platform: Platform, facts: FileFacts) -> bool {
    if platform.spec_is_unix() {
        facts.readable && facts.mode & 0o111 != 0
    } else if platform == Platform::Windows {
        facts.is_file
    } else {
        false
    }
}

/// Whether a file with these facts may be executed.
pub fn verify_executable(platform: Platform, facts: &FileFacts) -> (ok: bool)
    ensures
        ok == is_executable(platform, *facts),
{
    if platform.is_unix() {
        facts.readable && facts.mode & 0o111 != 0
    } else {
        match platform {
            Platform::Windows => facts.is_file,
            _ => false,
        }
    }
}

/// One of the usual places of an executable, with what was seen there.
#[derive(Debug)]
pub struct Candidate {
    /// The place itself.
    pub path: String,
    /// The last component of the place.
    pub file_name: String,
    /// Whether the place is a regular file.
    pub is_file: bool,
    /// Whether the place is a directory.
    pub is_dir: bool,
    /// The place with the executable's name added as one more component.
    pub inner: String,
    /// Whether `inner` is a regular file.
    pub inner_is_file: bool,
    /// The place with the executable's name and `.exe` added.
    pub inner_exe: String,
    /// Whether `inner_exe` is a regular file.
    pub inner_exe_is_file: bool,
}

/// The mathematical content of a [`Candidate`].
pub struct CandidateView {
    pub path: Seq<char>,
    pub file_name: Seq<char>,
    pub is_file: bool,
    pub is_dir: bool,
    pub inner: Seq<char>,
    pub inner_is_file: bool,
    pub inner_exe: Seq<char>,
    pub inner_exe_is_file: bool,
}

impl View for Candidate {
    type V = CandidateView;

    open spec fn view(&self) -> CandidateView {
        CandidateView {
            path: self.path@,
            file_name: self.file_name@,
            is_file: self.is_file,
            is_dir: self.is_dir,
            inner: self.inner@,
            inner_is_file: self.inner_is_file,
            inner_exe: self.inner_exe@,
            inner_exe_is_file: self.inner_exe_is_file,
        }
    }
}

/// The views of a list of candidates, in order.
pub open spec fn candidate_views(v: Seq<Candidate>) -> Seq<CandidateView> {
    v.map_values(|c: Candidate| c@)
}

/// The executable that a place holds, if it holds one.
///
/// A place that is itself a file named like the executable, with or
/// without `.exe`, is the executable. A place that is a directory holds it
/// when the file of that name stands directly inside; on Windows the file
/// with `.exe` added counts too.
pub open spec fn executable_in(
    candidate: CandidateView,
    name: Seq<char>,
    platform: Platform,
) -> Option<Seq<char>> {
    if candidate.is_file && (candidate.file_name == name || candidate.file_name == name
        + ".exe"@) {
        Some(candidate.path)
    } else if candidate.is_dir && candidate.inner_is_file {
        Some(candidate.inner)
    } else if candidate.is_dir && platform == Platform::Windows && candidate.inner_exe_is_file {
        Some(candidate.inner_exe)
    } else {
        None
    }
}

/// The executable of the first place, from `from` on, that holds one.
pub open spec fn first_executable(
    candidates: Seq<CandidateView>,
    name: Seq<char>,
    platform: Platform,
    from: int,
) -> Option<Seq<char>>
    decreases candidates.len() - from,
{
    if from < 0 || from >= candidates.len() {
        None
    } else if executable_in(candidates[from], name, platform) is Some {
        executable_in(candidates[from], name, platform)
    } else {
        first_executable(candidates, name, platform, from + 1)
    }
}

/// Where the executable `name` is: the hit on the search path if there is
/// one, else the executable of the first place that holds one.
pub open spec fn located(
    search_path_hit: Option<Seq<char>>,
    candidates: Seq<CandidateView>,
    name: Seq<char>,
    platform: Platform,
) -> Option<Seq<char>> {
    match search_path_hit {
        Some(path) => Some(path),
        None => first_executable(candidates, name, platform, 0),
    }
}

/// The executable that a place holds, if it holds one.
pub fn candidate_executable(candidate: &Candidate, name: &str, platform: Platform) -> (r: Option<
    String,
>)
    ensures
        crate::types::opt_text(r) == executable_in(candidate@, name@, platform),
{
    if candidate.is_file {
        let file_name = str_to_chars(candidate.file_name.as_str());
        let plain = str_to_chars(name);
        let mut with_exe = str_to_chars(name);
        let mut suffix = str_to_chars(".exe");
        with_exe.append(&mut suffix);
        if text_eq(file_name.as_slice(), plain.as_slice()) || text_eq(
            file_name.as_slice(),
            with_exe.as_slice(),
        ) {
            return Some(candidate.path.clone());
        }
    }
    if candidate.is_dir && candidate.inner_is_file {
        return Some(candidate.inner.clone());
    }
    let windows = match platform {
        Platform::Windows => true,
        _ => false,
    };
    if candidate.is_dir && windows && candidate.inner_exe_is_file {
        return Some(candidate.inner_exe.clone());
    }
    None
}

/// Where the executable `name` is, or `None` if it is not installed.
///
/// A hit on the search path wins. Without one the usual places are gone
/// through in order, and the first that holds the executable gives it.
#[verifier::loop_isolation(false)]
pub fn locate(
    search_path_hit: Option<String>,
    candidates: &Vec<Candidate>,
    name: &str,
    platform: Platform,
) -> (r: Option<String>)
    ensures
        crate::types::opt_text(r) == located(
            crate::types::opt_text(search_path_hit),
            candidate_views(candidates@),
            name@,
            platform,
        ),
{
    match search_path_hit {
        Some(path) => Some(path),
        None => {
            let ghost views = candidate_views(candidates@);
            let mut i: usize = 0;
            while i < candidates.len()
                invariant
                    i <= candidates.len(),
                    views == candidate_views(candidates@),
                    first_executable(views, name@, platform, 0) == first_executable(
                        views,
                        name@,
                        platform,
                        i as int,
                    ),
                decreases candidates.len() - i,
            {
                assert(views[i as int] == candidates@[i as int]@);
                let found = candidate_executable(&candidates[i], name, platform);
                if found.is_some() {
                    return found;
                }
                i += 1;
            }
            None
        },
    }
}

/// No place before the one that gives the executable holds one: the
/// first match wins.
pub proof fn lemma_first_match_wins(
    candidates: Seq<CandidateView>,
    name: Seq<char>,
    platform: Platform,
    from: int,
    at: int,
)
    requires
        0 <= from <= at < candidates.len(),
        forall|j: int| from <= j < at ==> executable_in(candidates[j], name, platform) is None,
        executable_in(candidates[at], name, platform) is Some,
    ensures
        first_executable(candidates, name, platform, from) == executable_in(
            candidates[at],
            name,
            platform,
        ),
    decreases at - from,
{
    if from < at {
        lemma_first_match_wins(candidates, name, platform, from + 1, at);
    }
}

/// Where no place holds the executable and the search path gave nothing,
/// it is not installed.
pub proof fn lemma_nothing_found(
    candidates: Seq<CandidateView>,
    name: Seq<char>,
    platform: Platform,
    from: int,
)
    requires
        0 <= from,
        forall|j: int|
            from <= j < candidates.len() ==> executable_in(candidates[j], name, platform)
                is None,
    ensures
        first_executable(candidates, name, platform, from) is None,
    decreases candidates.len() - from,
{
    if from < candidates.len() {
        lemma_nothing_found(candidates, name, platform, from + 1);
    }
}

/// Whether `needle` stands somewhere in `hay` when ASCII capitals and
/// small letters are taken as the same.
pub open spec fn contains_ignore_ascii_case(hay: Seq<char>, needle: Seq<char>) -> bool {
    exists|i: int|
        0 <= i && i + needle.len() <= hay.len() && eq_ignore_ascii_case(
            #[trigger] hay.subrange(i, i + needle.len()),
            needle,
        )
}

/// Whether `needle` stands somewhere in `hay` when ASCII capitals and
/// small letters are taken as the same.
pub fn text_contains_ignore_ascii_case(hay: &[char], needle: &[char]) -> (b: bool)
    ensures
        b == contains_ignore_ascii_case(hay@, needle@),
{
    if needle.len() > hay.len() {
        return false;
    }
    let last: usize = hay.len() - needle.len();
    let mut i: usize = 0;
    loop
        invariant
            last == hay.len() - needle.len(),
            i <= last,
            forall|j: int|
                0 <= j < i ==> !eq_ignore_ascii_case(
                    #[trigger] hay@.subrange(j, j + needle.len()),
                    needle@,
                ),
        decreases last - i,
    {
        let window = copy_range(hay, i, i + needle.len());
        if text_eq_ignore_ascii_case(window.as_slice(), needle) {
            return true;
        }
        if i == last {
            return false;
        }
        i += 1;
    }
}

/// Whether the text of `/proc/version` tells of a Linux that runs under
/// Windows: it names `microsoft` or `wsl`, in any mix of capitals.
pub open spec fn tells_of_wsl(proc_version: Seq<char>) -> bool {
    contains_ignore_ascii_case(proc_version, "microsoft"@) || contains_ignore_ascii_case(
        proc_version,
        "wsl"@,
    )
}

/// Whether the text of `/proc/version` tells of a Linux that runs under
/// Windows.
pub fn is_wsl_host(proc_version: &str) -> (b: bool)
    ensures
        b == tells_of_wsl(proc_version@),
{
    let hay = str_to_chars(proc_version);
    let microsoft = str_to_chars("microsoft");
    let wsl = str_to_chars("wsl");
    text_contains_ignore_ascii_case(hay.as_slice(), microsoft.as_slice())
        || text_contains_ignore_ascii_case(hay.as_slice(), wsl.as_slice())
}

} // verus!
