//! The commander: runs argument vectors through a caller-supplied runner,
//! records each run, and interprets the outcome.
use vstd::prelude::*;

use crate::history::{CommandHistory, HistoryEntry};
use crate::outcome::{CommandError, RunOutcome};

verus! {

/// `s` without one trailing newline, if it ends in one.
pub open spec fn strip_newline(s: Seq<char>) -> Seq<char> {
    if s.len() > 0 && s.last() == '\n' {
        s.drop_last()
    } else {
        s
    }
}

/// The text a successful run reports: standard output, followed by standard
/// error when `merge` is set, without a trailing newline.
pub open spec fn output_text(stdout: Seq<char>, stderr: Seq<char>, merge: bool) -> Seq<char> {
    strip_newline(if merge { stdout + stderr } else { stdout })
}

/// `r` is what a command that returns text reports for outcome `o`.
pub open spec fn text_result(o: RunOutcome, merge: bool, r: Result<String, CommandError>) -> bool {
    if o.spec_succeeded() {
        r matches Ok(t) && t@ == output_text(o->stdout@, o->stderr@, merge)
    } else {
        r == Err::<String, CommandError>(o.spec_error())
    }
}

/// `r` is what a command that discards its output reports for outcome `o`.
pub open spec fn void_result(o: RunOutcome, r: Result<(), CommandError>) -> bool {
    if o.spec_succeeded() {
        r is Ok
    } else {
        r == Err::<(), CommandError>(o.spec_error())
    }
}

/// Remove one trailing newline from `s`.
pub fn strip_trailing_newline(s: &str) -> (r: String)
    ensures
        r@ == strip_newline(s@),
{
    let n = s.unicode_len();
    if n > 0 && s.get_char(n - 1) == '\n' {
        String::from_str(s.substring_char(0, n - 1))
    } else {
        String::from_str(s)
    }
}

/// Issues commands to the external tool through `runner`, which executes one
/// argument vector and reports the outcome.
pub struct Commander<R> {
    pub runner: R,
    pub command_history: CommandHistory,
}

impl<R: Fn(&Vec<String>) -> RunOutcome> Commander<R> {
    /// The runner accepts every argument vector.
    pub open spec fn wf(&self) -> bool {
        forall|a: &Vec<String>| call_requires(self.runner, (a,))
    }

    /// The most recent outcome in the history.
    pub open spec fn last_outcome(&self) -> RunOutcome {
        self.command_history@.last().outcome
    }

    /// Going from `pre` to `post` ran `args` once through the runner and
    /// recorded it, and changed nothing else.
    pub open spec fn ran(pre: Self, post: Self, args: Seq<Seq<char>>) -> bool {
        &&& post.runner == pre.runner
        &&& post.command_history@.len() == pre.command_history@.len() + 1
        &&& post.command_history@.drop_last() == pre.command_history@
        &&& post.command_history@.last().spec_args() == args
        &&& call_ensures(
            pre.runner,
            (&post.command_history@.last().args,),
            post.command_history@.last().outcome,
        )
    }

    /// A commander over `runner`, with an empty history.
    pub fn new(runner: R) -> (r: Self)
        requires
            forall|a: &Vec<String>| call_requires(runner, (a,)),
        ensures
            r.wf(),
            r.runner == runner,
            r.command_history@ == Seq::<HistoryEntry>::empty(),
    {
        Commander { runner, command_history: CommandHistory::new() }
    }

    /// Run `args` and record the run; returns a copy of the outcome.
    fn run_recorded(&mut self, args: Vec<String>) -> (o: RunOutcome)
        requires
            old(self).wf(),
        ensures
            final(self).wf(),
            Self::ran(*old(self), *final(self), args.deep_view()),
            o == final(self).last_outcome(),
    {
        let outcome = (self.runner)(&args);
        let copy = outcome.duplicate();
        self.command_history.record(args, outcome);
        proof {
            assert(self.command_history@.drop_last() =~= old(self).command_history@);
        }
        copy
    }

    /// Run `args` and return the text it printed: standard output, followed
    /// by standard error when `merge_stderr` is set, without a trailing
    /// newline.
    pub fn execute_jj_command(&mut self, args: Vec<String>, merge_stderr: bool) -> (r: Result<
        String,
        CommandError,
    >)
        requires
            old(self).wf(),
        ensures
            final(self).wf(),
            Self::ran(*old(self), *final(self), args.deep_view()),
            text_result(final(self).last_outcome(), merge_stderr, r),
    {
        let outcome = self.run_recorded(args);
        match outcome {
            RunOutcome::Exited { status: Some(0i32), stdout, stderr } => {
                if merge_stderr {
                    let mut all = stdout;
                    all.append(stderr.as_str());
                    Ok(strip_trailing_newline(all.as_str()))
                } else {
                    Ok(strip_trailing_newline(stdout.as_str()))
                }
            },
            _ => Err(outcome.into_error()),
        }
    }

    /// Run `args`, discarding what it printed.
    pub fn execute_void_jj_command(&mut self, args: Vec<String>) -> (r: Result<(), CommandError>)
        requires
            old(self).wf(),
        ensures
            final(self).wf(),
            Self::ran(*old(self), *final(self), args.deep_view()),
            void_result(final(self).last_outcome(), r),
    {
        let outcome = self.run_recorded(args);
        if outcome.succeeded() {
            Ok(())
        } else {
            Err(outcome.into_error())
        }
    }
}

} // verus!
