//! Splitting newly appended bytes into complete lines.
//!
//! A drain pass scans bytes left to right, carrying the partial line buffered
//! from earlier passes. Each line-feed byte flushes the buffer as one complete
//! line (terminator stripped); whatever follows the last terminator stays
//! buffered for the next pass.

use vstd::prelude::*;

verus! {

/// The line terminator: a single line-feed byte.
pub const NL: u8 = 10;

/// The complete lines produced by scanning `bytes` with `partial` already
/// buffered.
pub open spec fn drained_lines(partial: Seq<u8>, bytes: Seq<u8>) -> Seq<Seq<u8>>
    decreases bytes.len(),
{
    if bytes.len() == 0 {
        Seq::empty()
    } else if bytes[0] == NL {
        seq![partial] + drained_lines(Seq::empty(), bytes.drop_first())
    } else {
        drained_lines(partial.push(bytes[0]), bytes.drop_first())
    }
}

/// The bytes left buffered after scanning `bytes` with `partial` already
/// buffered: everything past the last terminator.
pub open spec fn drained_rest(partial: Seq<u8>, bytes: Seq<u8>) -> Seq<u8>
    decreases bytes.len(),
{
    if bytes.len() == 0 {
        partial
    } else if bytes[0] == NL {
        drained_rest(Seq::empty(), bytes.drop_first())
    } else {
        drained_rest(partial.push(bytes[0]), bytes.drop_first())
    }
}

/// True when `s` contains no line terminator.
pub open spec fn newline_free(s: Seq<u8>) -> bool {
    forall|i: int| 0 <= i < s.len() ==> s[i] != NL
}

/// The abstract contents of a list of line buffers.
pub open spec fn views_of(lines: Seq<Vec<u8>>) -> Seq<Seq<u8>> {
    lines.map_values(|l: Vec<u8>| l@)
}

/// The bytes of `lines` laid out one after another, each line followed by a
/// terminator.
pub open spec fn terminated(lines: Seq<Seq<u8>>) -> Seq<u8>
    decreases lines.len(),
{
    if lines.len() == 0 {
        Seq::empty()
    } else {
        lines[0].push(NL) + terminated(lines.drop_first())
    }
}

/// Draining an append of `a` and then an append of `b` emits exactly the
/// lines of one drain of `a + b`, and leaves the same bytes buffered: no
/// line is lost, duplicated or reordered by how appends are batched.
pub proof fn lemma_drain_append(partial: Seq<u8>, a: Seq<u8>, b: Seq<u8>)
    ensures
        drained_lines(partial, a + b)
            == drained_lines(partial, a) + drained_lines(drained_rest(partial, a), b),
        drained_rest(partial, a + b) == drained_rest(drained_rest(partial, a), b),
    decreases a.len(),
{
    if a.len() == 0 {
        assert(a + b =~= b);
        assert(drained_lines(partial, a) + drained_lines(partial, b)
            =~= drained_lines(partial, b));
    } else {
        assert((a + b)[0] == a[0]);
        assert((a + b).drop_first() =~= a.drop_first() + b);
        if a[0] == NL {
            lemma_drain_append(Seq::empty(), a.drop_first(), b);
            assert(seq![partial]
                + (drained_lines(Seq::empty(), a.drop_first())
                    + drained_lines(drained_rest(Seq::empty(), a.drop_first()), b))
                =~= (seq![partial] + drained_lines(Seq::empty(), a.drop_first()))
                    + drained_lines(drained_rest(partial, a), b));
        } else {
            lemma_drain_append(partial.push(a[0]), a.drop_first(), b);
        }
    }
}

/// Every byte is accounted for exactly once: the scanned bytes are exactly
/// the emitted lines, each with its terminator restored, followed by the
/// bytes left buffered.
pub proof fn lemma_drain_partition(partial: Seq<u8>, bytes: Seq<u8>)
    ensures
        partial + bytes
            == terminated(drained_lines(partial, bytes)) + drained_rest(partial, bytes),
    decreases bytes.len(),
{
    if bytes.len() == 0 {
        assert(terminated(drained_lines(partial, bytes)) + partial =~= partial);
        assert(partial + bytes =~= partial);
    } else if bytes[0] == NL {
        lemma_drain_partition(Seq::empty(), bytes.drop_first());
        assert(Seq::<u8>::empty() + bytes.drop_first() =~= bytes.drop_first());
        let rest_lines = drained_lines(Seq::<u8>::empty(), bytes.drop_first());
        assert(terminated(seq![partial] + rest_lines)
            =~= partial.push(NL) + terminated((seq![partial] + rest_lines).drop_first()));
        assert((seq![partial] + rest_lines).drop_first() =~= rest_lines);
        assert(partial + bytes =~= partial.push(NL) + bytes.drop_first());
        assert(partial.push(NL)
            + (terminated(rest_lines) + drained_rest(Seq::empty(), bytes.drop_first()))
            =~= (partial.push(NL) + terminated(rest_lines))
                + drained_rest(Seq::empty(), bytes.drop_first()));
    } else {
        lemma_drain_partition(partial.push(bytes[0]), bytes.drop_first());
        assert(partial.push(bytes[0]) + bytes.drop_first() =~= partial + bytes);
    }
}

/// An append without a terminator emits nothing; its bytes only extend the
/// buffered partial line.
pub proof fn lemma_drain_no_newline(partial: Seq<u8>, bytes: Seq<u8>)
    requires
        newline_free(bytes),
    ensures
        drained_lines(partial, bytes) == Seq::<Seq<u8>>::empty(),
        drained_rest(partial, bytes) == partial + bytes,
    decreases bytes.len(),
{
    if bytes.len() == 0 {
        assert(partial + bytes =~= partial);
    } else {
        assert(newline_free(bytes.drop_first())) by {
            assert(forall|i: int| 0 <= i < bytes.drop_first().len()
                ==> bytes.drop_first()[i] == bytes[i + 1]);
        }
        lemma_drain_no_newline(partial.push(bytes[0]), bytes.drop_first());
        assert(partial.push(bytes[0]) + bytes.drop_first() =~= partial + bytes);
    }
}

/// An append of one terminator-free chunk followed by a terminator emits
/// exactly one line: the buffered partial line completed by the chunk.
pub proof fn lemma_drain_one_line(partial: Seq<u8>, bytes: Seq<u8>)
    requires
        newline_free(bytes),
    ensures
        drained_lines(partial, bytes.push(NL)) == seq![partial + bytes],
        drained_rest(partial, bytes.push(NL)) == Seq::<u8>::empty(),
{
    assert(bytes.push(NL) =~= bytes + seq![NL]);
    lemma_drain_append(partial, bytes, seq![NL]);
    lemma_drain_no_newline(partial, bytes);
    let one: Seq<u8> = seq![NL];
    assert(one.drop_first() =~= Seq::<u8>::empty());
    assert(drained_lines(partial + bytes, one)
        =~= seq![partial + bytes] + drained_lines(Seq::empty(), Seq::empty()));
    assert(drained_rest(partial + bytes, one) =~= drained_rest(Seq::<u8>::empty(), one.drop_first()));
    assert(Seq::<Seq<u8>>::empty() + seq![partial + bytes] =~= seq![partial + bytes]);
}

/// Terminators are consumed, never delivered: as long as the buffered
/// partial line holds none (which draining preserves), no emitted line
/// contains one, and neither does the partial line left behind.
pub proof fn lemma_lines_are_stripped(partial: Seq<u8>, bytes: Seq<u8>)
    requires
        newline_free(partial),
    ensures
        forall|i: int| 0 <= i < drained_lines(partial, bytes).len()
            ==> newline_free(#[trigger] drained_lines(partial, bytes)[i]),
        newline_free(drained_rest(partial, bytes)),
    decreases bytes.len(),
{
    if bytes.len() == 0 {
    } else if bytes[0] == NL {
        lemma_lines_are_stripped(Seq::empty(), bytes.drop_first());
        let rest_lines = drained_lines(Seq::empty(), bytes.drop_first());
        assert forall|i: int| 0 <= i < drained_lines(partial, bytes).len()
            implies newline_free(#[trigger] drained_lines(partial, bytes)[i]) by {
            if i == 0 {
                assert(drained_lines(partial, bytes)[0] == partial);
            } else {
                assert(drained_lines(partial, bytes)[i] == rest_lines[i - 1]);
            }
        }
    } else {
        assert(newline_free(partial.push(bytes[0]))) by {
            assert(forall|i: int| 0 <= i < partial.len()
                ==> partial.push(bytes[0])[i] == partial[i]);
        }
        lemma_lines_are_stripped(partial.push(bytes[0]), bytes.drop_first());
        assert forall|i: int| 0 <= i < drained_lines(partial, bytes).len()
            implies newline_free(#[trigger] drained_lines(partial, bytes)[i]) by {
            assert(newline_free(drained_lines(partial.push(bytes[0]), bytes.drop_first())[i]));
        }
    }
}

/// A single write of terminator-free lines, each followed by a terminator,
/// drains to exactly those lines, in order, with nothing left buffered.
pub proof fn lemma_drain_round_trip(lines: Seq<Seq<u8>>)
    requires
        forall|i: int| 0 <= i < lines.len() ==> newline_free(#[trigger] lines[i]),
    ensures
        drained_lines(Seq::empty(), terminated(lines)) == lines,
        drained_rest(Seq::empty(), terminated(lines)) == Seq::<u8>::empty(),
    decreases lines.len(),
{
    if lines.len() == 0 {
        assert(lines =~= Seq::<Seq<u8>>::empty());
    } else {
        lemma_drain_append(Seq::empty(), lines[0].push(NL), terminated(lines.drop_first()));
        lemma_drain_one_line(Seq::empty(), lines[0]);
        assert(Seq::<u8>::empty() + lines[0] =~= lines[0]);
        assert(forall|i: int| 0 <= i < lines.drop_first().len()
            ==> newline_free(#[trigger] lines.drop_first()[i]));
        lemma_drain_round_trip(lines.drop_first());
        assert(seq![lines[0]] + lines.drop_first() =~= lines);
    }
}

/// Splits the newly read `bytes` into complete lines, carrying `partial`
/// across calls: each terminator flushes the buffer as one line, and the
/// bytes after the last terminator replace the buffer.
pub fn split_lines(partial: &mut Vec<u8>, bytes: &Vec<u8>) -> (lines: Vec<Vec<u8>>)
    ensures
        views_of(lines@) == drained_lines(old(partial)@, bytes@),
        final(partial)@ == drained_rest(old(partial)@, bytes@),
{
    let mut lines: Vec<Vec<u8>> = Vec::new();
    let mut i: usize = 0;
    proof {
        assert(bytes@.subrange(0, bytes@.len() as int) =~= bytes@);
        assert(views_of(lines@) + drained_lines(partial@, bytes@) =~= drained_lines(partial@, bytes@));
    }
    while i < bytes.len()
        invariant
            i <= bytes@.len(),
            drained_lines(old(partial)@, bytes@)
                == views_of(lines@) + drained_lines(partial@, bytes@.subrange(i as int, bytes@.len() as int)),
            drained_rest(old(partial)@, bytes@)
                == drained_rest(partial@, bytes@.subrange(i as int, bytes@.len() as int)),
        decreases bytes@.len() - i,
    {
        let ghost pre_lines = lines@;
        let ghost pre_partial = partial@;
        let ghost tail = bytes@.subrange(i as int, bytes@.len() as int);
        let b = bytes[i];
        if b == NL {
            let mut done: Vec<u8> = Vec::new();
            core::mem::swap(partial, &mut done);
            lines.push(done);
        } else {
            partial.push(b);
        }
        i = i + 1;
        proof {
            assert(tail[0] == b);
            assert(tail.drop_first() =~= bytes@.subrange(i as int, bytes@.len() as int));
            if b == NL {
                assert(views_of(lines@) =~= views_of(pre_lines).push(pre_partial));
                assert(views_of(pre_lines).push(pre_partial)
                    + drained_lines(Seq::empty(), tail.drop_first())
                    =~= views_of(pre_lines) + (seq![pre_partial] + drained_lines(Seq::empty(), tail.drop_first())));
            } else {
                assert(partial@ =~= pre_partial.push(b));
            }
        }
    }
    proof {
        assert(bytes@.subrange(bytes@.len() as int, bytes@.len() as int) =~= Seq::<u8>::empty());
        assert(views_of(lines@) + drained_lines(partial@, Seq::empty()) =~= views_of(lines@));
    }
    lines
}

} // verus!
