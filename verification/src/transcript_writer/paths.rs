//! Where transcripts are stored, and which binary names are safe to store
//! them under.
//!
//! Paths are held as text. Joining two paths is left to `std::path`, whose
//! result is named by `joined_path`.

use std::path::Path;

use vstd::prelude::*;

use crate::error::BsuiteCoreError;

verus! {

/// The operating system whose conventions decide the transcript root.
#[derive(Debug, Clone, Copy, PartialEq, Eq, Structural)]
pub enum TranscriptOperatingSystem {
    Linux,
    Macos,
    Windows,
    Other,
}

/// What the transcript root is derived from.
#[derive(Debug, Clone, PartialEq, Eq)]
pub struct TranscriptPathEnvironment {
    pub operating_system: TranscriptOperatingSystem,
    pub home_dir: Option<String>,
    pub xdg_state_home: Option<String>,
    pub local_app_data: Option<String>,
}

/// The path that `std::path::Path::join` builds from `base` and `part`.
pub uninterp spec fn joined_path(base: Seq<char>, part: Seq<char>) -> Seq<char>;

/// Calls `std::path::Path::join` on `base` and `part` and hands back the
/// joined path as text. The contract claims only that the text is
/// `joined_path(base, part)`: which separator is used, and when `part`
/// replaces `base`, is left to `std::path` on the target the crate is built
/// for. Both inputs are text, so the joined path is text as well and the
/// conversion back loses nothing.
#[verifier::external_body]
fn join_path(base: &str, part: &str) -> (joined: String)
    ensures
        joined@ == joined_path(base@, part@),
{
    Path::new(base).join(part).to_string_lossy().into_owned()
}

/// The directory a transcript store lives under when no explicit root is set.
pub open spec fn spec_transcript_root(environment: TranscriptPathEnvironment) -> Seq<char> {
    match environment.operating_system {
        TranscriptOperatingSystem::Linux => {
            let state = match environment.xdg_state_home {
                Some(xdg) => xdg@,
                None => match environment.home_dir {
                    Some(home) => joined_path(home@, ".local/state"@),
                    None => ".local/state"@,
                },
            };
            joined_path(joined_path(state, "bsuite"@), "transcripts"@)
        },
        TranscriptOperatingSystem::Macos => {
            let home = match environment.home_dir {
                Some(home) => home@,
                None => ""@,
            };
            joined_path(
                joined_path(joined_path(home, "Library/Application Support"@), "bsuite"@),
                "transcripts"@,
            )
        },
        TranscriptOperatingSystem::Windows => {
            let local = match environment.local_app_data {
                Some(local) => local@,
                None => "AppData/Local"@,
            };
            joined_path(joined_path(local, "bsuite"@), "transcripts"@)
        },
        TranscriptOperatingSystem::Other => joined_path("bsuite"@, "transcripts"@),
    }
}

/// The default transcript root for `environment`: the platform's state
/// directory, then `bsuite/transcripts`.
pub fn transcript_root_for_environment(environment: &TranscriptPathEnvironment) -> (root: String)
    ensures
        root@ == spec_transcript_root(*environment),
{
    match environment.operating_system {
        TranscriptOperatingSystem::Linux => {
            let state = match &environment.xdg_state_home {
                Some(xdg) => xdg.clone(),
                None => match &environment.home_dir {
                    Some(home) => join_path(home.as_str(), ".local/state"),
                    None => String::from_str(".local/state"),
                },
            };
            let bsuite = join_path(state.as_str(), "bsuite");
            join_path(bsuite.as_str(), "transcripts")
        },
        TranscriptOperatingSystem::Macos => {
            let home = match &environment.home_dir {
                Some(home) => home.clone(),
                None => String::from_str(""),
            };
            let support = join_path(home.as_str(), "Library/Application Support");
            let bsuite = join_path(support.as_str(), "bsuite");
            join_path(bsuite.as_str(), "transcripts")
        },
        TranscriptOperatingSystem::Windows => {
            let local = match &environment.local_app_data {
                Some(local) => local.clone(),
                None => String::from_str("AppData/Local"),
            };
            let bsuite = join_path(local.as_str(), "bsuite");
            join_path(bsuite.as_str(), "transcripts")
        },
        TranscriptOperatingSystem::Other => join_path("bsuite", "transcripts"),
    }
}

/// The final component that `std::path::Path::file_name` finds in `path`.
pub uninterp spec fn path_file_name(path: Seq<char>) -> Option<Seq<char>>;

/// How many components `std::path::Path::components` yields for `path`.
pub uninterp spec fn path_component_count(path: Seq<char>) -> nat;

/// The text `format!("{:?}", text)` produces for a string slice.
pub uninterp spec fn debug_quoted_text(text: Seq<char>) -> Seq<char>;

/// Calls `std::path::Path::file_name` on `path` and hands back the final
/// component as text. The contract names the result and claims nothing more
/// of it; which texts have a final component is left to `std::path`.
#[verifier::external_body]
fn file_name_of(path: &str) -> (name: Option<String>)
    ensures
        match name {
            Some(n) => path_file_name(path@) == Some(n@),
            None => path_file_name(path@) is None,
        },
{
    match Path::new(path).file_name() {
        Some(name) => Some(name.to_string_lossy().into_owned()),
        None => None,
    }
}

/// Counts what `std::path::Path::components` yields for `path`. The
/// contract names the count and claims nothing more of it.
#[verifier::external_body]
fn component_count(path: &str) -> (count: usize)
    ensures
        count as nat == path_component_count(path@),
{
    Path::new(path).components().count()
}

/// Calls `str::contains` with `std::path::MAIN_SEPARATOR`, which the
/// documentation gives as `/` on Unix and `\` on Windows. The contract
/// claims only that a separator found is one of those two characters.
#[verifier::external_body]
fn contains_platform_separator(text: &str) -> (found: bool)
    ensures
        found ==> holds_char(text@, '/') || holds_char(text@, '\\'),
{
    text.contains(std::path::MAIN_SEPARATOR)
}

/// Formats `text` with `{:?}`. The contract names the result: the quoted,
/// escaped text that `Debug` for `str` writes.
#[verifier::external_body]
fn debug_quoted(text: &str) -> (quoted: String)
    ensures
        quoted@ == debug_quoted_text(text@),
{
    format!("{text:?}")
}

/// Whether `text` holds the character `c`.
pub open spec fn holds_char(text: Seq<char>, c: char) -> bool {
    exists|i: int| 0 <= i < text.len() && text[i] == c
}

fn contains_char(text: &str, c: char) -> (found: bool)
    ensures
        found == holds_char(text@, c),
{
    let n = text.unicode_len();
    let mut i: usize = 0;
    while i < n
        invariant
            n == text@.len(),
            i <= n,
            forall|j: int| 0 <= j < i ==> text@[j] != c,
        decreases n - i,
    {
        if text.get_char(i) == c {
            return true;
        }
        i = i + 1;
    }
    false
}

/// A binary name that is safe to use as a directory name under the
/// transcript root: non-empty, its own file name, a single path component,
/// and free of both path separators.
pub open spec fn spec_safe_binary_name(name: Seq<char>) -> bool {
    &&& name.len() > 0
    &&& path_file_name(name) == Some(name)
    &&& path_component_count(name) == 1
    &&& !holds_char(name, '/')
    &&& !holds_char(name, '\\')
}

/// The message that rejects an unsafe binary name.
pub open spec fn spec_unsafe_name_message(name: Seq<char>) -> Seq<char> {
    "unsafe binary name: "@ + debug_quoted_text(name)
}

/// Accepts a binary name only where it is safe to join under the
/// transcript root; any other name is `TranscriptPathFailed`.
pub fn validate_binary_name(binary_name: &str) -> (outcome: Result<(), BsuiteCoreError>)
    ensures
        spec_safe_binary_name(binary_name@) ==> outcome is Ok,
        !spec_safe_binary_name(binary_name@) ==> (outcome matches Err(
            BsuiteCoreError::TranscriptPathFailed(message),
        ) && message@ == spec_unsafe_name_message(binary_name@)),
{
    let valid = binary_name.unicode_len() > 0 && match file_name_of(binary_name) {
        Some(name) => crate::text::same_text(name.as_str(), binary_name),
        None => false,
    } && component_count(binary_name) == 1 && !contains_platform_separator(binary_name)
        && !contains_char(binary_name, '/') && !contains_char(binary_name, '\\');
    if valid {
        Ok(())
    } else {
        let mut message = String::from_str("unsafe binary name: ");
        let quoted = debug_quoted(binary_name);
        message.append(quoted.as_str());
        Err(BsuiteCoreError::TranscriptPathFailed(message))
    }
}

/// The transcript root of each operating system: the Linux state
/// directory (`$XDG_STATE_HOME`, else `~/.local/state`), the macOS
/// `~/Library/Application Support`, the Windows local application data
/// directory, or the working directory elsewhere, followed by
/// `bsuite/transcripts`.
pub proof fn lemma_transcript_root_per_system(environment: TranscriptPathEnvironment)
    ensures
        ({
            let root = spec_transcript_root(environment);
            let finish = |base: Seq<char>| joined_path(joined_path(base, "bsuite"@), "transcripts"@);
            &&& environment.operating_system == TranscriptOperatingSystem::Linux ==> root == finish(
                match environment.xdg_state_home {
                    Some(xdg) => xdg@,
                    None => match environment.home_dir {
                        Some(home) => joined_path(home@, ".local/state"@),
                        None => ".local/state"@,
                    },
                },
            )
            &&& environment.operating_system == TranscriptOperatingSystem::Macos ==> root == finish(
                joined_path(
                    match environment.home_dir {
                        Some(home) => home@,
                        None => ""@,
                    },
                    "Library/Application Support"@,
                ),
            )
            &&& environment.operating_system == TranscriptOperatingSystem::Windows ==> root
                == finish(
                match environment.local_app_data {
                    Some(local) => local@,
                    None => "AppData/Local"@,
                },
            )
            &&& environment.operating_system == TranscriptOperatingSystem::Other ==> root
                == joined_path("bsuite"@, "transcripts"@)
        }),
{
}

/// The transcript root reads only the hints of its own operating system:
/// Linux reads the state and home directories, macOS the home directory,
/// Windows the local application data directory, and other systems none.
/// Two environments that agree on those give the same root.
pub proof fn lemma_transcript_root_reads_own_hints(
    a: TranscriptPathEnvironment,
    b: TranscriptPathEnvironment,
)
    requires
        a.operating_system == b.operating_system,
        a.operating_system == TranscriptOperatingSystem::Linux ==> a.xdg_state_home
            == b.xdg_state_home && a.home_dir == b.home_dir,
        a.operating_system == TranscriptOperatingSystem::Macos ==> a.home_dir == b.home_dir,
        a.operating_system == TranscriptOperatingSystem::Windows ==> a.local_app_data
            == b.local_app_data,
    ensures
        spec_transcript_root(a) == spec_transcript_root(b),
{
}

/// A name is accepted exactly when it is non-empty, is its own file name,
/// is a single path component and holds neither `/` nor `\`; nothing else,
/// its length included, decides.
pub proof fn lemma_safe_binary_name_exactly(name: Seq<char>)
    ensures
        spec_safe_binary_name(name) <==> (name.len() > 0 && path_file_name(name) == Some(name)
            && path_component_count(name) == 1 && !holds_char(name, '/') && !holds_char(
            name,
            '\\',
        )),
{
}

} // verus!
