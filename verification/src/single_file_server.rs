//! A handler configuration that serves one single file.
//!
//! The server shares exactly one resource, so its routing needs no mount
//! tree: just the path of the one file and a rank that decides where the
//! handler sorts among routes. Opening and sending the file is I/O and
//! happens outside this crate; this type only carries the validated
//! configuration. Checking that the path names an existing file is the
//! caller's job, before the value is built.

use vstd::prelude::*;

verus! {

/// The rank a single-file handler gets when none is chosen explicitly.
pub const DEFAULT_RANK: isize = 10;

/// Configuration of a handler that serves one single file.
#[derive(Debug, Clone)]
pub struct SingleFileServer {
    /// Path of the file to serve.
    pub file: String,
    /// Where this handler sorts among routes; lower ranks are tried first.
    pub rank: isize,
}

impl SingleFileServer {
    /// A handler for the file at `file`, with the default rank.
    pub fn new(file: String) -> (s: SingleFileServer)
        ensures
            s.file@ == file@,
            s.rank == DEFAULT_RANK,
    {
        SingleFileServer { file, rank: DEFAULT_RANK }
    }

    /// The same handler, re-ranked to `rank`.
    pub fn rank(self, rank: isize) -> (s: SingleFileServer)
        ensures
            s.file@ == self.file@,
            s.rank == rank,
    {
        SingleFileServer { rank, ..self }
    }
}

} // verus!
