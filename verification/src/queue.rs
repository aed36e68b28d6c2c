//! The queue that collects entries until they are sent.

use crate::entry::{entry_line, LogEntry};
use crate::text::{join, joined, text_views};
use vstd::prelude::*;
use vstd::string::*;

verus! {

/// Queue of log entries, in the order in which they were appended.
#[derive(Debug)]
pub struct LogQueue {
    entries: Vec<LogEntry>,
}

/// The queue `q` after each entry of `es` has been appended to it, in turn.
pub open spec fn appended_all(q: Seq<LogEntry>, es: Seq<LogEntry>) -> Seq<LogEntry>
    decreases es.len(),
{
    if es.len() == 0 {
        q
    } else {
        appended_all(q.push(es[0]), es.drop_first())
    }
}

/// The line of each entry of `es`.
pub open spec fn entry_lines(es: Seq<LogEntry>) -> Seq<Seq<char>> {
    Seq::new(es.len(), |i: int| entry_line(es[i]@))
}

/// The lines of the entries, with a line feed between one and the next.
pub open spec fn joined_lines(es: Seq<LogEntry>) -> Seq<char> {
    joined(entry_lines(es), "\n"@)
}

impl View for LogQueue {
    type V = Seq<LogEntry>;

    closed spec fn view(&self) -> Seq<LogEntry> {
        self.entries@
    }
}

impl LogQueue {
    /// Constructs a new empty log queue.
    pub fn new() -> (q: LogQueue)
        ensures
            q@ == Seq::<LogEntry>::empty(),
    {
        LogQueue { entries: Vec::new() }
    }

    /// A queue that holds `entries`, to which more can be appended.
    pub fn from(entries: Vec<LogEntry>) -> (q: LogQueue)
        ensures
            q@ == entries@,
    {
        LogQueue { entries }
    }

    /// Returns all queued entries, in the order in which they were appended,
    /// and leaves the queue empty.
    pub fn take(&mut self) -> (taken: Vec<LogEntry>)
        ensures
            taken@ == old(self)@,
            final(self)@ == Seq::<LogEntry>::empty(),
    {
        let mut taken: Vec<LogEntry> = Vec::new();
        taken.append(&mut self.entries);
        assert(taken@ =~= old(self).entries@);
        taken
    }

    /// Returns true if there are no entries to send.
    pub fn is_empty(&self) -> (r: bool)
        ensures
            r == (self@.len() == 0),
    {
        self.entries.is_empty()
    }

    /// Removes all entries.
    pub fn clear(&mut self)
        ensures
            final(self)@ == Seq::<LogEntry>::empty(),
    {
        self.entries.clear();
    }

    /// Appends an entry to the queue.
    pub fn log(&mut self, e: LogEntry)
        ensures
            final(self)@ == old(self)@.push(e),
    {
        self.entries.push(e)
    }

    /// The queued entries, one line each.
    pub fn to_string(&self) -> (r: String)
        ensures
            r@ == joined_lines(self@),
    {
        let mut lines: Vec<String> = Vec::new();
        let n: usize = self.entries.len();
        let mut i: usize = 0;
        while i < n
            invariant
                n == self.entries@.len(),
                i <= n,
                lines@.len() == i,
                text_views(lines@) == entry_lines(self.entries@.take(i as int)),
            decreases n - i,
        {
            let line: String = self.entries[i].to_string();
            let ghost before = lines@;
            lines.push(line);
            proof {
                let after = entry_lines(self.entries@.take(i + 1));
                assert forall|j: int| 0 <= j < after.len() implies text_views(lines@)[j]
                    == after[j] by {
                    if j < i {
                        assert(text_views(before)[j] == entry_lines(
                            self.entries@.take(i as int),
                        )[j]);
                    }
                }
                assert(text_views(lines@) =~= after);
            }
            i = i + 1;
        }
        assert(self.entries@.take(n as int) =~= self.entries@);
        join(&lines, "\n")
    }
}

impl Default for LogQueue {
    /// The empty queue.
    fn default() -> (q: LogQueue)
        ensures
            q@ == Seq::<LogEntry>::empty(),
    {
        LogQueue { entries: Vec::new() }
    }
}

/// Appending entries one by one to a queue adds them behind what it held, in
/// the order of the appends.
pub proof fn lemma_appended_all(q: Seq<LogEntry>, es: Seq<LogEntry>)
    ensures
        appended_all(q, es) == q + es,
    decreases es.len(),
{
    if es.len() == 0 {
        assert(q + es =~= q);
    } else {
        lemma_appended_all(q.push(es[0]), es.drop_first());
        assert(q.push(es[0]) + es.drop_first() =~= q + es);
    }
}

/// A new queue to which the entries `es` were appended holds exactly `es`:
/// this is what `take` then returns, and the queue it leaves is empty.
pub proof fn lemma_take_returns_appends(es: Seq<LogEntry>)
    ensures
        appended_all(Seq::empty(), es) == es,
{
    lemma_appended_all(Seq::empty(), es);
    assert(Seq::<LogEntry>::empty() + es =~= es);
}

/// Appending `a` and then `b` to a new queue gives `a` before `b`.
pub proof fn lemma_two_appends_in_order(a: LogEntry, b: LogEntry)
    ensures
        appended_all(Seq::empty(), seq![a, b]) == seq![a, b],
        seq![a, b][0] == a,
        seq![a, b][1] == b,
{
    lemma_take_returns_appends(seq![a, b]);
}

} // verus!
