//! The filesystem boundary of the core.
//!
//! Commands never touch the filesystem themselves. Before dispatching, the
//! caller asks `CommandManager::prepare` which action the command needs
//! (`Request`), performs it, and records the outcome (`Reply`) in the
//! execution context. Dispatch then runs the command against that outcome.

use vstd::prelude::*;

verus! {

/// One entry of a directory listing, as the filesystem reported it.
pub struct DirEntry {
    pub name: String,
    pub is_dir: bool,
}

/// What reading a directory produced.
pub enum Listing {
    /// The listed path did not resolve to an existing directory.
    PathInvalid,
    /// The path resolved but the directory could not be read.
    Unreadable,
    /// The directory's entries, in whatever order the filesystem gave them.
    Entries(Vec<DirEntry>),
}

/// The outcome of the filesystem action a command asked for.
pub enum Reply {
    /// No action was needed, or none was performed.
    Nothing,
    /// The result of resolving a raw path to an existing absolute directory.
    ResolvedDir(Option<String>),
    /// The result of reading a directory.
    Directory(Listing),
    /// Whether a create or delete operation succeeded.
    OpDone(bool),
    /// The lines of an opened file, or nothing if it could not be opened.
    FileLines(Option<Vec<String>>),
    /// The exit code of an external program, or nothing if it did not run.
    ExternalExit(Option<i32>),
}

/// The filesystem action a command needs before it can run.
pub enum Request {
    Nothing,
    /// Expand and canonicalize the raw path; answer `ResolvedDir`.
    ResolveDir(String),
    /// Read the entries of the given directory, or of the working directory
    /// when absent; answer `Directory`.
    ListDir(Option<String>),
    /// Create an empty file at the path; answer `OpDone`.
    CreateFile(String),
    /// Create a directory at the path; answer `OpDone`.
    CreateDir(String),
    /// Remove the file at the path; answer `OpDone`.
    DeleteFile(String),
    /// Open the file and collect its lines; answer `FileLines`.
    ReadFile(String),
    /// Spawn the binary at the path with the arguments and a filtered
    /// environment, wait for it, and answer `ExternalExit`.
    RunExternal(String, Vec<String>),
}

/// The mathematical shape of a `Request`.
pub enum RequestView {
    Nothing,
    ResolveDir(Seq<char>),
    ListDir(Option<Seq<char>>),
    CreateFile(Seq<char>),
    CreateDir(Seq<char>),
    DeleteFile(Seq<char>),
    ReadFile(Seq<char>),
    RunExternal(Seq<char>, Seq<Seq<char>>),
}

impl View for Request {
    type V = RequestView;

    open spec fn view(&self) -> RequestView {
        match self {
            Request::Nothing => RequestView::Nothing,
            Request::ResolveDir(p) => RequestView::ResolveDir(p@),
            Request::ListDir(o) => RequestView::ListDir(
                match o {
                    Option::Some(p) => Option::Some(p@),
                    Option::None => Option::None,
                },
            ),
            Request::CreateFile(p) => RequestView::CreateFile(p@),
            Request::CreateDir(p) => RequestView::CreateDir(p@),
            Request::DeleteFile(p) => RequestView::DeleteFile(p@),
            Request::ReadFile(p) => RequestView::ReadFile(p@),
            Request::RunExternal(p, a) => RequestView::RunExternal(p@, a.deep_view()),
        }
    }
}

} // verus!
