//! The bounded log of one job root.
//!
//! A buffer keeps the newest `MAX_LOG_LINES` lines it was given, oldest first.
//! Lines beyond that bound are dropped from the front.

use std::collections::VecDeque;
use vstd::prelude::*;
use crate::text::views;

verus! {

/// The number of lines a buffer retains.
pub const MAX_LOG_LINES: usize = 1500;

/// The newest `capacity` lines of `lines`, or all of them if there are fewer.
pub open spec fn keep_newest(lines: Seq<Seq<char>>, capacity: nat) -> Seq<Seq<char>> {
    if lines.len() <= capacity {
        lines
    } else {
        lines.subrange(lines.len() - capacity, lines.len() as int)
    }
}

/// What a buffer holding `lines` holds after `line` is appended.
pub open spec fn appended(lines: Seq<Seq<char>>, line: Seq<char>) -> Seq<Seq<char>> {
    keep_newest(lines.push(line), MAX_LOG_LINES as nat)
}

/// Appending never grows a buffer beyond its bound, keeps the new line last,
/// and on a full buffer drops exactly the oldest line.
pub proof fn lemma_append_is_bounded_fifo(lines: Seq<Seq<char>>, line: Seq<char>)
    requires
        lines.len() <= MAX_LOG_LINES,
    ensures
        appended(lines, line).len() <= MAX_LOG_LINES,
        appended(lines, line).last() == line,
        lines.len() < MAX_LOG_LINES ==> appended(lines, line) == lines.push(line),
        lines.len() == MAX_LOG_LINES ==> appended(lines, line) == lines.drop_first().push(line),
{
    if lines.len() == MAX_LOG_LINES {
        assert(appended(lines, line) =~= lines.drop_first().push(line));
    }
}

/// The retained log lines of one job root, oldest first.
pub struct LogBuffer {
    lines: VecDeque<String>,
}

impl LogBuffer {
    #[verifier::type_invariant]
    spec fn bounded(self) -> bool {
        self.lines@.len() <= MAX_LOG_LINES
    }

    /// The retained lines, oldest first.
    pub closed spec fn view(&self) -> Seq<Seq<char>> {
        views(self.lines@)
    }

    /// A buffer without lines.
    pub fn new() -> (buffer: Self)
        ensures
            buffer@ == Seq::<Seq<char>>::empty(),
    {
        let buffer = LogBuffer { lines: VecDeque::new() };
        assert(buffer@ =~= Seq::<Seq<char>>::empty());
        buffer
    }

    /// The number of retained lines.
    pub fn len(&self) -> (count: usize)
        ensures
            count == self@.len(),
            count <= MAX_LOG_LINES,
    {
        proof {
            use_type_invariant(self);
        }
        self.lines.len()
    }

    /// Appends `line`; if the buffer was full, the oldest line leaves.
    pub fn append(&mut self, line: String)
        ensures
            final(self)@ == appended(old(self)@, line@),
            final(self)@.len() <= MAX_LOG_LINES,
    {
        proof {
            use_type_invariant(&*self);
        }
        let ghost before = self.lines@;
        let mut lines: VecDeque<String> = VecDeque::new();
        core::mem::swap(&mut self.lines, &mut lines);
        lines.push_back(line);
        let ghost pushed = lines@;
        assert(views(pushed) =~= views(before).push(line@));
        while lines.len() > MAX_LOG_LINES
            invariant
                lines@.len() <= pushed.len(),
                lines@.len() >= MAX_LOG_LINES || lines@.len() == pushed.len(),
                lines@ == pushed.subrange(pushed.len() - lines@.len(), pushed.len() as int),
            decreases lines@.len(),
        {
            let _ = lines.pop_front();
            assert(lines@ =~= pushed.subrange(pushed.len() - lines@.len(), pushed.len() as int));
        }
        self.lines = lines;
        assert(self@ =~= keep_newest(views(pushed), MAX_LOG_LINES as nat));
    }

    /// A copy of the retained lines, oldest first.
    pub fn lines(&self) -> (out: Vec<String>)
        ensures
            views(out@) == self@,
            out@.len() <= MAX_LOG_LINES,
    {
        proof {
            use_type_invariant(self);
        }
        let mut out: Vec<String> = Vec::new();
        let mut i: usize = 0;
        while i < self.lines.len()
            invariant
                i <= self.lines@.len(),
                self.lines@.len() <= MAX_LOG_LINES,
                out@.len() == i,
                forall|k: int| 0 <= k < i ==> out@[k]@ == self.lines@[k]@,
            decreases self.lines@.len() - i,
        {
            out.push(self.lines[i].clone());
            i += 1;
        }
        assert(views(out@) =~= self@);
        out
    }
}

} // verus!
