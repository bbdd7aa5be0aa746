//! Consumption of the worker's standard output, one line at a time: progress
//! lines go to the sink in order, the result line is kept, and a cancellation
//! request stops the reading before the next line.

use vstd::prelude::*;
use crate::job::{JobError, texts};
use crate::protocol::{is_terminal_line, last_terminal, progress_lines, terminal_line};

verus! {

broadcast use vstd::seq_lib::group_seq_properties;

/// What to do with the line just handed to [`StdoutDemux::on_line`].
#[derive(Debug, Clone, PartialEq, Eq)]
pub enum LineAction {
    /// Deliver this progress message to the sink.
    Forward(String),
    /// The line was the result line and has been kept.
    Captured,
    /// Cancellation was requested: stop reading.
    Stop,
}

/// The state of the reader of the worker's standard output.
pub struct StdoutDemux {
    captured: Option<String>,
    cancelled: bool,
    consumed: Ghost<Seq<Seq<char>>>,
    forwarded: Ghost<Seq<Seq<char>>>,
}

impl StdoutDemux {
    /// The lines processed so far (the line seen at cancellation is not among them).
    pub closed spec fn lines(&self) -> Seq<Seq<char>> {
        self.consumed@
    }

    /// The messages handed to the sink so far, in order.
    pub closed spec fn delivered(&self) -> Seq<Seq<char>> {
        self.forwarded@
    }

    /// Whether reading was stopped by a cancellation request.
    pub closed spec fn stopped(&self) -> bool {
        self.cancelled
    }

    pub closed spec fn wf(&self) -> bool {
        &&& self.forwarded@ == progress_lines(self.consumed@)
        &&& match self.captured {
            Some(t) => last_terminal(self.consumed@) == Some(t@),
            None => last_terminal(self.consumed@) is None,
        }
    }

    pub fn new() -> (r: Self)
        ensures
            r.wf(),
            r.lines() == Seq::<Seq<char>>::empty(),
            r.delivered() == Seq::<Seq<char>>::empty(),
            !r.stopped(),
    {
        let r = StdoutDemux {
            captured: None,
            cancelled: false,
            consumed: Ghost(Seq::empty()),
            forwarded: Ghost(Seq::empty()),
        };
        proof {
            reveal(Seq::filter);
        }
        r
    }

    /// Handles one line of standard output. The cancellation request is polled
    /// first: once it is seen, no further line is processed.
    pub fn on_line(&mut self, line: String, cancel_requested: bool) -> (act: LineAction)
        requires
            old(self).wf(),
        ensures
            final(self).wf(),
            old(self).stopped() || cancel_requested ==> {
                &&& act == LineAction::Stop
                &&& final(self).stopped()
                &&& final(self).lines() == old(self).lines()
                &&& final(self).delivered() == old(self).delivered()
            },
            !old(self).stopped() && !cancel_requested ==> {
                &&& !final(self).stopped()
                &&& final(self).lines() == old(self).lines().push(line@)
                &&& terminal_line(line@) ==> act == LineAction::Captured
                    && final(self).delivered() == old(self).delivered()
                &&& !terminal_line(line@) ==> act == LineAction::Forward(line)
                    && final(self).delivered() == old(self).delivered().push(line@)
            },
    {
        if self.cancelled || cancel_requested {
            self.cancelled = true;
            return LineAction::Stop;
        }
        let ghost prev = self.consumed@;
        proof {
            prev.lemma_filter_push(line@, |l: Seq<char>| !terminal_line(l));
            assert(prev.push(line@).drop_last() == prev);
        }
        self.consumed = Ghost(prev.push(line@));
        if is_terminal_line(line.as_str()) {
            self.captured = Some(line);
            LineAction::Captured
        } else {
            self.forwarded = Ghost(self.forwarded@.push(line@));
            LineAction::Forward(line)
        }
    }

    /// Ends the reading on a failure to read the next line. A pending
    /// cancellation request is reported in its place.
    pub fn on_read_error(self, cause: String, cancel_requested: bool) -> (r: JobError)
        ensures
            self.stopped() || cancel_requested ==> r == JobError::Cancelled,
            !self.stopped() && !cancel_requested ==> r == (JobError::StreamError { cause }),
    {
        if self.cancelled || cancel_requested {
            JobError::Cancelled
        } else {
            JobError::StreamError { cause }
        }
    }

    /// Ends the reading at end of stream, polling the cancellation request once
    /// more: the kept result line, or why there is none.
    pub fn finish(self, cancel_requested: bool) -> (r: Result<String, JobError>)
        requires
            self.wf(),
        ensures
            self.stopped() || cancel_requested ==> r == Err::<String, JobError>(JobError::Cancelled),
            !self.stopped() && !cancel_requested ==> match last_terminal(self.lines()) {
                Some(t) => r is Ok && r->Ok_0@ == t,
                None => r == Err::<String, JobError>(JobError::MissingResultPayload),
            },
    {
        if self.cancelled || cancel_requested {
            Err(JobError::Cancelled)
        } else {
            match self.captured {
                Some(t) => Ok(t),
                None => Err(JobError::MissingResultPayload),
            }
        }
    }
}

/// How many lines are read when cancellation is requested just before the
/// line at `cancel_at` (index `n` stands for end of stream).
pub open spec fn lines_read(n: int, cancel_at: Option<usize>) -> int {
    match cancel_at {
        Some(c) => if (c as int) < n { c as int } else { n },
        None => n,
    }
}

/// Whether a cancellation requested just before the line at `cancel_at` comes
/// before the end of a stream of `n` lines.
pub open spec fn cancel_seen(n: int, cancel_at: Option<usize>) -> bool {
    cancel_at is Some && (cancel_at->Some_0 as int) <= n
}

/// Reads a complete standard output `lines`, with cancellation requested just
/// before the line at index `cancel_at`, if any (at index `lines.len()`: after
/// the last line, before end of stream; later: after end of stream). Returns
/// the progress messages delivered, in order, and the result line or the error
/// that ends the reading.
pub fn demux_output(lines: &Vec<String>, cancel_at: Option<usize>) -> (r: (Vec<String>, Result<String, JobError>))
    ensures
        texts(r.0@) == progress_lines(texts(lines@).take(lines_read(lines@.len() as int, cancel_at))),
        forall|i: int| 0 <= i < r.0@.len() ==> !terminal_line(#[trigger] r.0@[i]@),
        cancel_seen(lines@.len() as int, cancel_at) ==> r.1 == Err::<String, JobError>(JobError::Cancelled),
        !cancel_seen(lines@.len() as int, cancel_at) ==> match last_terminal(texts(lines@)) {
            Some(t) => r.1 is Ok && r.1->Ok_0@ == t,
            None => r.1 == Err::<String, JobError>(JobError::MissingResultPayload),
        },
{
    let ghost all = texts(lines@);
    let ghost k = lines_read(lines@.len() as int, cancel_at);
    let mut demux = StdoutDemux::new();
    let mut progress: Vec<String> = Vec::new();
    let mut i: usize = 0;
    while i < lines.len()
        invariant
            all == texts(lines@),
            k == lines_read(lines@.len() as int, cancel_at),
            i <= lines@.len(),
            i <= k,
            demux.wf(),
            !demux.stopped(),
            demux.lines() == all.take(i as int),
            texts(progress@) == demux.delivered(),
        decreases lines@.len() - i,
    {
        let cancel_requested = match cancel_at {
            Some(c) => i >= c,
            None => false,
        };
        let line = lines[i].clone();
        let act = demux.on_line(line, cancel_requested);
        match act {
            LineAction::Forward(msg) => {
                progress.push(msg);
                assert(texts(progress@) == demux.delivered());
            },
            LineAction::Captured => {},
            LineAction::Stop => {
                proof {
                    lemma_progress_lines_pure(progress@, demux.delivered());
                }
                return (progress, demux.finish(true));
            },
        }
        assert(all.take(i + 1) == all.take(i as int).push(all[i as int]));
        i = i + 1;
    }
    assert(all.take(i as int) == all);
    proof {
        lemma_progress_lines_pure(progress@, demux.delivered());
    }
    let cancel_at_end = match cancel_at {
        Some(c) => c <= lines.len(),
        None => false,
    };
    (progress, demux.finish(cancel_at_end))
}

proof fn lemma_progress_lines_pure(v: Seq<String>, d: Seq<Seq<char>>)
    requires
        texts(v) == d,
        exists|ls: Seq<Seq<char>>| progress_lines(ls) == d,
    ensures
        forall|i: int| 0 <= i < v.len() ==> !terminal_line(#[trigger] v[i]@),
{
    let ls = choose|ls: Seq<Seq<char>>| progress_lines(ls) == d;
    assert forall|i: int| 0 <= i < v.len() implies !terminal_line(#[trigger] v[i]@) by {
        assert(texts(v)[i] == v[i]@);
        ls.lemma_filter_pred(|l: Seq<char>| !terminal_line(l), i);
    }
}

} // verus!
