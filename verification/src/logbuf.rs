//! A capacity-bounded log buffer: insertion order is kept, and when full the
//! oldest entry is evicted first.

use vstd::prelude::*;

verus! {

/// The retained entries after appending `x` to `s` in a buffer of capacity
/// `cap`: the newest `cap` entries of `s.push(x)`, oldest dropped first.
pub open spec fn buf_push(s: Seq<Seq<char>>, cap: nat, x: Seq<char>) -> Seq<Seq<char>> {
    if s.len() + 1 <= cap {
        s.push(x)
    } else {
        s.push(x).skip(s.len() + 1 - cap)
    }
}

/// An ordered sequence of log lines that never grows beyond its capacity.
pub struct LogBuffer {
    entries: Vec<String>,
    capacity: usize,
}

/// The mathematical shape of a `LogBuffer`.
pub struct LogBufferV {
    pub entries: Seq<Seq<char>>,
    pub capacity: nat,
}

impl View for LogBuffer {
    type V = LogBufferV;

    closed spec fn view(&self) -> LogBufferV {
        LogBufferV {
            entries: self.entries@.map_values(|s: String| s@),
            capacity: self.capacity as nat,
        }
    }
}

impl LogBuffer {
    /// Well-formedness: the buffer holds at most `capacity` entries.
    pub open spec fn wf(&self) -> bool {
        self@.entries.len() <= self@.capacity && self@.capacity >= 1
    }

    pub fn new(capacity: usize) -> (b: LogBuffer)
        requires
            capacity >= 1,
        ensures
            b.wf(),
            b@.capacity == capacity,
            b@.entries =~= Seq::<Seq<char>>::empty(),
    {
        LogBuffer { entries: Vec::new(), capacity }
    }

    /// Appends a line; when the buffer is full the oldest entry is evicted.
    pub fn push(&mut self, line: String)
        requires
            old(self).wf(),
        ensures
            final(self).wf(),
            final(self)@.capacity == old(self)@.capacity,
            final(self)@.entries =~= buf_push(old(self)@.entries, old(self)@.capacity, line@),
    {
        self.entries.push(line);
        if self.entries.len() > self.capacity {
            self.entries.remove(0);
        }
    }

    pub fn len(&self) -> (n: usize)
        ensures
            n == self@.entries.len(),
    {
        self.entries.len()
    }

    pub fn capacity(&self) -> (c: usize)
        ensures
            c == self@.capacity,
    {
        self.capacity
    }

    /// The retained lines, oldest first.
    pub fn entries(&self) -> (r: &Vec<String>)
        ensures
            r@.map_values(|s: String| s@) == self@.entries,
    {
        &self.entries
    }
}

/// A bounded buffer stays within its capacity, and what it retains after an
/// append is exactly the newest suffix of the appended history: the oldest
/// entries are evicted first and the order of the retained entries is kept.
pub proof fn lemma_buf_push_bounded_fifo(s: Seq<Seq<char>>, cap: nat, x: Seq<char>)
    requires
        s.len() <= cap,
        cap >= 1,
    ensures
        buf_push(s, cap, x).len() <= cap,
        buf_push(s, cap, x) =~= s.push(x).skip(s.push(x).len() - buf_push(s, cap, x).len()),
{
}

} // verus!
