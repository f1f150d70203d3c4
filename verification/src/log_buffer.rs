//! Fixed-capacity ring buffer of captured output lines, with recency queries
//! and case-insensitive substring search.

use vstd::prelude::*;

verus! {

use std::collections::VecDeque;
use vstd::std_specs::vecdeque::VecDequeAdditionalSpecFns;
use vstd::string::StringExecFns;
use crate::strutil::{contains_sub, lower_of, seq_contains_sub, to_lowercase};

/// Which output stream a captured line came from.
#[derive(Debug, Clone, Copy, PartialEq, Eq, Structural)]
pub enum LogSource {
    Stdout,
    Stderr,
}

/// One captured output line; immutable once created.
#[derive(Debug, PartialEq, Eq)]
pub struct LogLine {
    pub source: LogSource,
    pub content: String,
}

impl Clone for LogLine {
    fn clone(&self) -> (r: Self)
        ensures
            r == *self,
    {
        LogLine { source: self.source, content: self.content.clone() }
    }
}

impl LogLine {
    /// A line captured from standard output.
    pub fn stdout(content: &str) -> (r: Self)
        ensures
            r.source == LogSource::Stdout,
            r.content@ == content@,
    {
        LogLine { source: LogSource::Stdout, content: String::from_str(content) }
    }

    /// A line captured from standard error.
    pub fn stderr(content: &str) -> (r: Self)
        ensures
            r.source == LogSource::Stderr,
            r.content@ == content@,
    {
        LogLine { source: LogSource::Stderr, content: String::from_str(content) }
    }
}

/// Whether a line's content matches a search query, ignoring case.
pub open spec fn spec_line_matches(line: LogLine, query: Seq<char>) -> bool {
    seq_contains_sub(lower_of(line.content@), lower_of(query))
}

/// The retained lines that match a query, oldest first.
pub open spec fn spec_search_results(lines: Seq<LogLine>, query: Seq<char>) -> Seq<LogLine> {
    lines.filter(|line: LogLine| spec_line_matches(line, query))
}

/// Law: the search is case-insensitive — two queries with the same
/// lowercase folding select exactly the same lines, whatever is retained.
pub proof fn lemma_search_case_insensitive(lines: Seq<LogLine>, q1: Seq<char>, q2: Seq<char>)
    requires
        lower_of(q1) == lower_of(q2),
    ensures
        spec_search_results(lines, q1) == spec_search_results(lines, q2),
    decreases lines.len(),
{
    reveal(Seq::filter);
    if lines.len() > 0 {
        lemma_search_case_insensitive(lines.drop_last(), q1, q2);
        assert(spec_line_matches(lines.last(), q1) == spec_line_matches(lines.last(), q2));
    }
}

pub const DEFAULT_LOG_CAPACITY: usize = 10000;

/// Ordered lines of captured output with a fixed capacity; once full,
/// insertion evicts the oldest entry.
pub struct LogBuffer {
    lines: VecDeque<LogLine>,
    capacity: usize,
}

impl LogBuffer {
    /// The retained lines, oldest first.
    pub closed spec fn entries(&self) -> Seq<LogLine> {
        self.lines.view()
    }

    pub closed spec fn spec_capacity(&self) -> nat {
        self.capacity as nat
    }

    /// A buffer with the default capacity.
    pub fn new() -> (r: Self)
        ensures
            r.entries() == Seq::<LogLine>::empty(),
            r.spec_capacity() == DEFAULT_LOG_CAPACITY,
    {
        Self::with_capacity(DEFAULT_LOG_CAPACITY)
    }

    /// A buffer holding at most `capacity` lines.
    pub fn with_capacity(capacity: usize) -> (r: Self)
        ensures
            r.entries() == Seq::<LogLine>::empty(),
            r.spec_capacity() == capacity,
    {
        LogBuffer { lines: VecDeque::with_capacity(capacity), capacity }
    }

    /// The configured capacity.
    pub fn capacity(&self) -> (r: usize)
        ensures
            r == self.spec_capacity(),
    {
        self.capacity
    }

    /// Appends a line; when the buffer is full the oldest line is evicted.
    pub fn push(&mut self, line: LogLine)
        ensures
            final (self).spec_capacity() == old(self).spec_capacity(),
            old(self).entries().len() >= old(self).spec_capacity() && old(self).entries().len() > 0
                ==> final (self).entries() == old(self).entries().drop_first().push(line),
            !(old(self).entries().len() >= old(self).spec_capacity() && old(
                self,
            ).entries().len() > 0) ==> final (self).entries() == old(self).entries().push(line),
    {
        if self.lines.len() >= self.capacity && self.lines.len() > 0 {
            let _ = self.lines.pop_front();
        }
        self.lines.push_back(line);
    }

    /// The most recent `min(n, len)` lines, in chronological order.
    pub fn last_n(&self, n: usize) -> (r: Vec<LogLine>)
        ensures
            r@ == self.entries().subrange(
                self.entries().len() - spec_min(n as nat, self.entries().len()),
                self.entries().len() as int,
            ),
    {
        let len = self.lines.len();
        let start = if n > len {
            0
        } else {
            len - n
        };
        let mut out: Vec<LogLine> = Vec::new();
        let mut i: usize = start;
        while i < len
            invariant
                start <= i <= len,
                len == self.entries().len(),
                out@ == self.entries().subrange(start as int, i as int),
            decreases len - i,
        {
            out.push(self.lines[i].clone());
            proof {
                assert(self.entries().subrange(start as int, i + 1 as int) =~= self
                    .entries()
                    .subrange(start as int, i as int)
                    .push(self.entries()[i as int]));
            }
            i += 1;
        }
        out
    }

    /// Case-insensitive substring search over all retained lines, oldest
    /// first; no match gives an empty result.
    pub fn search(&self, query: &str) -> (r: Vec<LogLine>)
        ensures
            r@ == spec_search_results(self.entries(), query@),
    {
        let query_lower = to_lowercase(query);
        let len = self.lines.len();
        let mut out: Vec<LogLine> = Vec::new();
        let mut i: usize = 0;
        proof {
            assert(self.entries().subrange(0, 0) =~= Seq::<LogLine>::empty());
        }
        while i < len
            invariant
                0 <= i <= len,
                len == self.entries().len(),
                query_lower@ == lower_of(query@),
                out@ == spec_search_results(self.entries().subrange(0, i as int), query@),
            decreases len - i,
        {
            let line = &self.lines[i];
            let line_lower = to_lowercase(line.content.as_str());
            proof {
                let pre = self.entries().subrange(0, i + 1 as int);
                assert(pre.drop_last() =~= self.entries().subrange(0, i as int));
                reveal(Seq::filter);
            }
            if contains_sub(line_lower.as_str(), query_lower.as_str()) {
                out.push(line.clone());
            }
            i += 1;
        }
        proof {
            assert(self.entries().subrange(0, len as int) =~= self.entries());
        }
        out
    }

    /// How many lines are retained.
    pub fn len(&self) -> (r: usize)
        ensures
            r == self.entries().len(),
    {
        self.lines.len()
    }

    /// Whether no line is retained.
    pub fn is_empty(&self) -> (r: bool)
        ensures
            r == (self.entries().len() == 0),
    {
        self.lines.len() == 0
    }

    /// Discards every retained line; the capacity is kept.
    pub fn clear(&mut self)
        ensures
            final (self).entries() == Seq::<LogLine>::empty(),
            final (self).spec_capacity() == old(self).spec_capacity(),
    {
        self.lines.clear();
    }
}

impl Default for LogBuffer {
    fn default() -> (r: Self)
        ensures
            r.entries() == Seq::<LogLine>::empty(),
            r.spec_capacity() == DEFAULT_LOG_CAPACITY,
    {
        Self::new()
    }
}

pub open spec fn spec_min(a: nat, b: nat) -> nat {
    if a <= b {
        a
    } else {
        b
    }
}

} // verus!
