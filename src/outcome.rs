//! The rules that turn what happened to the worker into one outcome: the
//! pre-flight check, the order in which failures are reported, the decoding
//! of the result line, and the deadline.

use vstd::prelude::*;
use crate::job::{JobError, JobResult, texts};

verus! {

broadcast use vstd::seq_lib::group_seq_properties;

/// How long a job may run, in seconds, unless configured otherwise (30 minutes).
pub const DEFAULT_DEADLINE_SECS: u64 = 1800;

/// The exit code reported for a worker that ended without one (killed by a signal).
pub const NO_EXIT_CODE: i32 = -1;

/// `lines` joined with a newline between each two.
pub open spec fn joined(lines: Seq<Seq<char>>) -> Seq<char>
    decreases lines.len(),
{
    if lines.len() == 0 {
        Seq::empty()
    } else if lines.len() == 1 {
        lines[0]
    } else {
        joined(lines.drop_last()) + seq!['\n'] + lines.last()
    }
}

/// Joins the worker's standard error lines into one text.
pub fn join_lines(lines: &Vec<String>) -> (r: String)
    ensures
        r@ == joined(texts(lines@)),
{
    let ghost all = texts(lines@);
    let mut r = String::new();
    let mut i: usize = 0;
    while i < lines.len()
        invariant
            all == texts(lines@),
            i <= lines@.len(),
            r@ == joined(all.take(i as int)),
        decreases lines@.len() - i,
    {
        assert(all.take(i + 1).drop_last() == all.take(i as int));
        assert(all.take(i + 1).last() == lines@[i as int]@);
        if i > 0 {
            proof {
                reveal_strlit("\n");
            }
            r.append("\n");
        }
        r.append(lines[i].as_str());
        proof {
            if i == 0 {
                assert(r@ == all.take(1)[0]);
            } else {
                assert(r@ == joined(all.take(i as int)) + seq!['\n'] + lines@[i as int]@);
            }
        }
        i = i + 1;
    }
    assert(all.take(i as int) == all);
    r
}

/// The check made before a worker is started: its input file must exist.
pub fn preflight(input_path: &String, input_exists: bool) -> (r: Result<(), JobError>)
    ensures
        input_exists <==> r is Ok,
        !input_exists ==> (r matches Err(JobError::InputNotFound { path }) && path@ == input_path@),
{
    if input_exists {
        Ok(())
    } else {
        Err(JobError::InputNotFound { path: input_path.clone() })
    }
}

/// Whether what reading the standard output gave is a failure of the reading
/// itself (cancellation included), which is reported before the exit status.
pub open spec fn reading_failed(stdout: Result<String, JobError>) -> bool {
    stdout is Err && !(stdout->Err_0 is MissingResultPayload)
}

/// Whether what reading the standard output gave decides the outcome before
/// the worker's exit status is known.
pub fn reading_failure(stdout: &Result<String, JobError>) -> (r: bool)
    ensures
        r == reading_failed(*stdout),
{
    match stdout {
        Err(JobError::MissingResultPayload) => false,
        Err(_) => true,
        Ok(_) => false,
    }
}

/// The code reported for a worker's exit (`None`: it was ended by a signal).
pub open spec fn reported_code(exit_code: Option<i32>) -> i32 {
    match exit_code {
        Some(c) => c,
        None => NO_EXIT_CODE,
    }
}

/// The outcome of a worker run before its result line is decoded, from what
/// reading its standard output gave, its exit code and its standard error
/// lines. A failure of the reading comes first, then a non-zero exit (with
/// the standard error text), then a missing result line.
pub fn settle(stdout: Result<String, JobError>, exit_code: Option<i32>, stderr: &Vec<String>) -> (r:
    Result<String, JobError>)
    ensures
        reading_failed(stdout) ==> r == stdout,
        !reading_failed(stdout) && exit_code != Some(0i32) ==> (r matches Err(
            JobError::ProcessExitedNonZero { code, stderr: text },
        ) && code == reported_code(exit_code) && text@ == joined(texts(stderr@))),
        !reading_failed(stdout) && exit_code == Some(0i32) ==> r == stdout,
{
    match stdout {
        Err(JobError::MissingResultPayload) => {},
        Err(e) => {
            return Err(e);
        },
        Ok(_) => {},
    }
    match exit_code {
        Some(0i32) => stdout,
        Some(c) => Err(JobError::ProcessExitedNonZero { code: c, stderr: join_lines(stderr) }),
        None => Err(JobError::ProcessExitedNonZero { code: NO_EXIT_CODE, stderr: join_lines(stderr) }),
    }
}

/// The outcome once the result line `raw_line` was decoded: `decoded` holds
/// the result, or why the line is no result.
pub fn decode_outcome(raw_line: String, decoded: Result<JobResult, String>) -> (r: Result<JobResult, JobError>)
    ensures
        match decoded {
            Ok(v) => r == Ok::<JobResult, JobError>(v),
            Err(cause) => r == Err::<JobResult, JobError>(JobError::ParseError { raw_line, cause }),
        },
{
    match decoded {
        Ok(v) => Ok(v),
        Err(cause) => Err(JobError::ParseError { raw_line, cause }),
    }
}

/// The outcome of the race against the deadline: `finished` is the job's
/// outcome if it ended first, `None` if the deadline elapsed first.
pub fn within_deadline(finished: Option<Result<JobResult, JobError>>) -> (r: Result<JobResult, JobError>)
    ensures
        finished is None ==> r == Err::<JobResult, JobError>(JobError::TimedOut),
        finished is Some ==> r == finished->Some_0,
{
    match finished {
        Some(outcome) => outcome,
        None => Err(JobError::TimedOut),
    }
}

} // verus!
