use vstd::prelude::*;
use vstd::string::*;

use crate::args::{command_args, invocation_args};
use crate::batch::{batch_hunks, batch_views, batches, Batch};
use crate::error::{FormatError, FormatErrorView};
use crate::hunk::{spans_fit, Hunk};

verus! {

/// The formatting tool that is run by default.
pub const CLANG_FORMAT: &'static str = "clang-format";

/// How one formatter invocation ended.
pub enum Outcome {
    /// The formatter ran and exited successfully.
    Succeeded,
    /// The formatter could not be started; `reason` says why.
    LaunchFailed { reason: String },
    /// The formatter exited unsuccessfully; `first_line` is the first line of
    /// its error stream as read, or `None` when none could be read.
    ExitFailed { first_line: Option<String> },
}

/// The error that a failed outcome gives for a program.
pub open spec fn outcome_error(program: Seq<char>, outcome: Outcome) -> FormatErrorView {
    match outcome {
        Outcome::LaunchFailed { reason } => FormatErrorView::Launch { program, reason: reason@ },
        _ => FormatErrorView::Execution {
            program,
            diagnostic: crate::error::diagnostic_of(
                match outcome {
                    Outcome::ExitFailed { first_line: Some(l) } => Some(
                        crate::error::trim_of(l@),
                    ),
                    _ => None,
                },
            ),
        },
    }
}

/// The state of a formatting run, as seen from outside.
pub struct SessionView {
    pub program: Seq<char>,
    pub batches: Seq<(Seq<char>, Seq<(int, int)>)>,
    /// How many batches have been formatted successfully.
    pub next: nat,
    /// Whether an invocation failed, which ends the run.
    pub stopped: bool,
}

impl SessionView {
    pub open spec fn wf(self) -> bool {
        self.next <= self.batches.len()
    }

    /// Whether a batch still waits for its invocation.
    pub open spec fn pending(self) -> bool {
        !self.stopped && self.next < self.batches.len()
    }
}

/// A formatting run over a hunk sequence: it hands out one invocation for
/// each batch in order, and ends at the first one that fails.
pub struct Session {
    program: String,
    batches: Vec<Batch>,
    next: usize,
    stopped: bool,
}

impl View for Session {
    type V = SessionView;

    closed spec fn view(&self) -> SessionView {
        SessionView {
            program: self.program@,
            batches: batch_views(self.batches@),
            next: self.next as nat,
            stopped: self.stopped,
        }
    }
}

impl Session {
    /// A run of `program` over the batches of `hunks`, none formatted yet.
    pub fn new(program: &str, hunks: &Vec<Hunk>) -> (r: Session)
        requires
            spans_fit(hunks@),
        ensures
            r@ == (SessionView {
                program: program@,
                batches: batches(hunks@),
                next: 0,
                stopped: false,
            }),
    {
        Session {
            program: String::from_str(program),
            batches: batch_hunks(hunks),
            next: 0,
            stopped: false,
        }
    }

    /// The program that each invocation runs.
    pub fn program(&self) -> (r: &str)
        ensures
            r@ == self@.program,
    {
        self.program.as_str()
    }

    /// The arguments of the next invocation, or `None` once every batch is
    /// formatted or an invocation has failed.
    pub fn next_invocation(&self) -> (r: Option<Vec<String>>)
        requires
            self@.wf(),
        ensures
            r is Some <==> self@.pending(),
            r matches Some(args) ==> args@.map_values(|a: String| a@) == command_args(
                self@.batches[self@.next as int],
            ),
    {
        assert(batch_views(self.batches@).len() == self.batches@.len());
        if self.stopped || self.next >= self.batches.len() {
            None
        } else {
            proof {
                assert(self@.batches[self@.next as int] == self.batches@[self.next as int]@);
            }
            Some(invocation_args(&self.batches[self.next]))
        }
    }

    /// Take in how the pending invocation ended. A success moves on to the
    /// next batch; a failure ends the run and is returned as its error.
    pub fn record(&mut self, outcome: Outcome) -> (r: Result<(), FormatError>)
        requires
            old(self)@.wf(),
            old(self)@.pending(),
        ensures
            final(self)@.wf(),
            final(self)@.program == old(self)@.program,
            final(self)@.batches == old(self)@.batches,
            outcome is Succeeded ==> r is Ok && final(self)@.next == old(self)@.next + 1
                && !final(self)@.stopped,
            !(outcome is Succeeded) ==> final(self)@.next == old(self)@.next
                && final(self)@.stopped && !final(self)@.pending(),
            !(outcome is Succeeded) ==> (r matches Err(e) && e@ == outcome_error(
                old(self)@.program,
                outcome,
            )),
    {
        match outcome {
            Outcome::Succeeded => {
                let n: usize = self.batches.len();
                assert(batch_views(self.batches@).len() == n);
                self.next = self.next + 1;
                Ok(())
            },
            Outcome::LaunchFailed { reason } => {
                self.stopped = true;
                Err(FormatError::from_launch(self.program.as_str(), reason))
            },
            Outcome::ExitFailed { first_line } => {
                self.stopped = true;
                Err(FormatError::from_exit(self.program.as_str(), first_line))
            },
        }
    }
}

} // verus!
