//! The handle returned for a written transcript.

use std::path::{Path, PathBuf};

use vstd::prelude::*;

verus! {

#[verifier::external_type_specification]
#[verifier::external_body]
pub struct ExPath(Path);

#[verifier::external_type_specification]
#[verifier::external_body]
pub struct ExPathBuf(PathBuf);

/// Names the transcript file that an append wrote.
#[derive(Debug, Clone, PartialEq, Eq, PartialOrd, Ord, Hash)]
pub struct TranscriptHandle {
    path: String,
}

impl View for TranscriptHandle {
    type V = Seq<char>;

    /// The path of the transcript file.
    closed spec fn view(&self) -> Seq<char> {
        self.path@
    }
}

impl TranscriptHandle {
    /// A handle for the transcript file at `path`.
    pub fn new(path: &str) -> (handle: TranscriptHandle)
        ensures
            handle@ == path@,
    {
        TranscriptHandle { path: String::from_str(path) }
    }

    /// The path, as a `Path`.
    #[verifier::external_body]
    pub fn as_path(&self) -> &Path {
        Path::new(self.path.as_str())
    }

    /// The path, as text.
    pub fn as_str(&self) -> (text: &str)
        ensures
            text@ == self@,
    {
        self.path.as_str()
    }

    /// The path, as an owned `PathBuf`.
    #[verifier::external_body]
    pub fn into_path_buf(self) -> PathBuf {
        PathBuf::from(self.path)
    }

    /// The path, as owned text.
    pub fn into_inner(self) -> (text: String)
        ensures
            text@ == self@,
    {
        self.path
    }
}

} // verus!
