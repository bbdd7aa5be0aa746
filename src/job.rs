//! The values a job hands back: its result on success, or the error that ended it.

use vstd::prelude::*;

verus! {

/// One cluster reported by the worker.
#[derive(Debug, Clone, PartialEq, Eq)]
pub struct ClusterInfo {
    pub name: String,
    pub atoms: i32,
    pub level: i32,
    pub reason: String,
}

/// The structured result that the worker prints as its last line.
#[derive(Debug, Clone, PartialEq, Eq)]
pub struct JobResult {
    pub success: bool,
    pub message: String,
    pub clusters_found: i32,
    pub total_atoms: i32,
    pub clusters_info: Vec<ClusterInfo>,
}

/// Every way in which a job can end without a result.
#[derive(Debug, Clone, PartialEq, Eq)]
pub enum JobError {
    /// Another job is still running.
    AlreadyRunning,
    /// The input file named by the parameters does not exist.
    InputNotFound { path: String },
    /// The worker could not be started.
    SpawnError { cause: String },
    /// Reading the worker's standard output or waiting for it failed.
    StreamError { cause: String },
    /// The worker exited with a non-zero status; its standard error is attached.
    ProcessExitedNonZero { code: i32, stderr: String },
    /// Standard output ended without a result line.
    MissingResultPayload,
    /// The result line did not decode as a result.
    ParseError { raw_line: String, cause: String },
    /// The job was cancelled while its output was being read.
    Cancelled,
    /// The deadline elapsed before the job ended.
    TimedOut,
    /// The saved parameters could not be read or written.
    ConfigIOError { cause: String },
}

/// The texts of a sequence of strings.
pub open spec fn texts(v: Seq<String>) -> Seq<Seq<char>> {
    v.map_values(|s: String| s@)
}

} // verus!
