//! The per-file read cursor.
//!
//! A `TailTarget` tracks how much of one growing file has been consumed: a
//! byte offset and the partial line buffered since the last terminator. The
//! surrounding program owns the file handle; it reads the bytes between the
//! cursor and the current end of file and hands them to `drain`.

use vstd::prelude::*;

use crate::lines::{drained_lines, drained_rest, split_lines, terminated, views_of};

verus! {

/// The tailing state of one file: where the cursor stands and which bytes
/// are buffered awaiting their terminator.
pub struct TailTarget {
    /// Path of the tailed file, used to tag emitted lines.
    pub path: String,
    /// File length when tailing began; bytes before it are never surfaced.
    pub start: u64,
    /// Byte offset up to which the file has been consumed.
    pub cursor: u64,
    /// Bytes after the last terminator, held until completed.
    pub partial: Vec<u8>,
    /// All bytes handed to `drain` since tailing began.
    pub consumed: Ghost<Seq<u8>>,
    /// All complete lines emitted since tailing began, in order.
    pub emitted: Ghost<Seq<Seq<u8>>>,
}

impl TailTarget {
    /// The cursor never moves backwards, every consumed byte is accounted
    /// for exactly once (as part of an emitted line or of the buffered
    /// partial line), and the emitted lines are exactly the complete lines
    /// of the bytes consumed so far.
    pub open spec fn wf(self) -> bool {
        &&& self.cursor == self.start + self.consumed@.len()
        &&& self.partial@ == drained_rest(Seq::empty(), self.consumed@)
        &&& self.emitted@ == drained_lines(Seq::empty(), self.consumed@)
    }

    /// Begins tailing a file of length `file_len`: the cursor starts at the
    /// end of the file, so content present before this call is never read.
    pub fn new(path: String, file_len: u64) -> (target: TailTarget)
        ensures
            target.wf(),
            target.path == path,
            target.start == file_len,
            target.cursor == file_len,
            target.consumed@ == Seq::<u8>::empty(),
            target.emitted@ == Seq::<Seq<u8>>::empty(),
            target.partial@ == Seq::<u8>::empty(),
    {
        TailTarget {
            path,
            start: file_len,
            cursor: file_len,
            partial: Vec::new(),
            consumed: Ghost(Seq::empty()),
            emitted: Ghost(Seq::empty()),
        }
    }

    /// No line is ever skipped or emitted twice, however the appends are
    /// batched or coalesced: what a target has emitted is a function of the
    /// bytes consumed alone. Two well-formed targets that consumed the same
    /// bytes have emitted the same lines, in the same order, and buffer the
    /// same partial line — whether those bytes arrived in one drain or many.
    pub proof fn lemma_batching_irrelevant(a: TailTarget, b: TailTarget)
        requires
            a.wf(),
            b.wf(),
            a.consumed@ == b.consumed@,
        ensures
            a.emitted@ == b.emitted@,
            a.partial@ == b.partial@,
            a.cursor - a.start == b.cursor - b.start,
    {
    }

    /// Nothing historical is ever replayed: a well-formed target has emitted
    /// exactly the complete lines of the bytes consumed after tailing began,
    /// and its cursor stands past the starting offset by exactly those
    /// bytes — content before the start is never part of any emitted line.
    pub proof fn lemma_no_historical_replay(target: TailTarget)
        requires
            target.wf(),
        ensures
            target.emitted@ == drained_lines(Seq::empty(), target.consumed@),
            target.cursor - target.start == target.consumed@.len(),
            target.cursor >= target.start,
    {
    }

    /// The cursor accounts for every consumed byte exactly once: it stands
    /// past the starting offset by the bytes of the emitted lines (each with
    /// its terminator restored) plus the retained partial line. No byte is
    /// read twice and none is dropped.
    pub proof fn lemma_every_byte_accounted(target: TailTarget)
        requires
            target.wf(),
        ensures
            target.consumed@ == terminated(target.emitted@) + target.partial@,
            target.cursor
                == target.start + terminated(target.emitted@).len() + target.partial@.len(),
    {
        crate::lines::lemma_drain_partition(Seq::empty(), target.consumed@);
        assert(Seq::<u8>::empty() + target.consumed@ =~= target.consumed@);
        assert(terminated(target.emitted@).len() + target.partial@.len()
            == target.consumed@.len());
    }

    /// Every line a well-formed target has emitted comes with its terminator
    /// stripped, and the buffered partial line holds no terminator either.
    pub proof fn lemma_emitted_lines_stripped(target: TailTarget)
        requires
            target.wf(),
        ensures
            forall|i: int| 0 <= i < target.emitted@.len()
                ==> crate::lines::newline_free(#[trigger] target.emitted@[i]),
            crate::lines::newline_free(target.partial@),
    {
        crate::lines::lemma_lines_are_stripped(Seq::empty(), target.consumed@);
    }

    /// Consumes the bytes newly appended past the cursor: emits every line
    /// completed by them, in order, buffers the trailing partial line, and
    /// advances the cursor past exactly the bytes handed in. With no new
    /// bytes it emits nothing and changes nothing.
    pub fn drain(&mut self, bytes: &Vec<u8>) -> (new_lines: Vec<Vec<u8>>)
        requires
            old(self).wf(),
            old(self).cursor + bytes@.len() <= u64::MAX,
        ensures
            final(self).wf(),
            final(self).path == old(self).path,
            final(self).start == old(self).start,
            final(self).cursor == old(self).cursor + bytes@.len(),
            final(self).consumed@ == old(self).consumed@ + bytes@,
            views_of(new_lines@) == drained_lines(old(self).partial@, bytes@),
            final(self).emitted@ == old(self).emitted@ + views_of(new_lines@),
            final(self).partial@ == drained_rest(old(self).partial@, bytes@),
    {
        let ghost pre = *self;
        let new_lines = split_lines(&mut self.partial, bytes);
        self.cursor = self.cursor + bytes.len() as u64;
        proof {
            self.consumed@ = pre.consumed@ + bytes@;
            self.emitted@ = pre.emitted@ + views_of(new_lines@);
            crate::lines::lemma_drain_append(Seq::empty(), pre.consumed@, bytes@);
        }
        new_lines
    }
}

} // verus!
