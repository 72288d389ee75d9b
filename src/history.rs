//! Append-only audit trail of every invocation of the external tool.
use vstd::prelude::*;

use crate::outcome::RunOutcome;

verus! {

/// One invocation: the exact argument vector and what came of it.
#[derive(Debug)]
pub struct HistoryEntry {
    pub args: Vec<String>,
    pub outcome: RunOutcome,
}

impl HistoryEntry {
    /// The argument vector as text.
    pub open spec fn spec_args(&self) -> Seq<Seq<char>> {
        self.args.deep_view()
    }

    /// Whether the invocation completed successfully.
    pub fn succeeded(&self) -> (r: bool)
        ensures
            r == self.outcome.spec_succeeded(),
    {
        self.outcome.succeeded()
    }
}

/// The sequence of invocations, in the order they were made. Entries are
/// never removed.
#[derive(Debug)]
pub struct CommandHistory {
    entries: Vec<HistoryEntry>,
}

impl View for CommandHistory {
    type V = Seq<HistoryEntry>;

    closed spec fn view(&self) -> Seq<HistoryEntry> {
        self.entries@
    }
}

impl CommandHistory {
    /// An empty history.
    pub fn new() -> (r: CommandHistory)
        ensures
            r@ == Seq::<HistoryEntry>::empty(),
    {
        CommandHistory { entries: Vec::new() }
    }

    /// Append the invocation of `args` with its `outcome`.
    pub fn record(&mut self, args: Vec<String>, outcome: RunOutcome)
        ensures
            final(self)@ == old(self)@.push(HistoryEntry { args, outcome }),
    {
        self.entries.push(HistoryEntry { args, outcome });
    }

    /// Number of recorded invocations.
    pub fn len(&self) -> (r: usize)
        ensures
            r == self@.len(),
    {
        self.entries.len()
    }

    /// The most recent invocation, if any.
    pub fn last(&self) -> (r: Option<&HistoryEntry>)
        ensures
            self@.len() == 0 ==> r is None,
            self@.len() > 0 ==> r == Some(&self@.last()),
    {
        let n = self.entries.len();
        if n == 0 {
            None
        } else {
            Some(&self.entries[n - 1])
        }
    }

    /// All invocations, oldest first.
    pub fn entries(&self) -> (r: &Vec<HistoryEntry>)
        ensures
            r@ == self@,
    {
        &self.entries
    }
}

} // verus!
