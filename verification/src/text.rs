//! Byte-level text primitives: finding a separator and splitting a window
//! of a byte string into pieces.

use vstd::prelude::*;

verus! {

/// The position of the first `sep` in `s`, or `s.len()` where `s` holds none.
pub open spec fn first_index(s: Seq<u8>, sep: u8) -> int
    decreases s.len(),
{
    if s.len() == 0 {
        0
    } else if s[0] == sep {
        0
    } else {
        1 + first_index(s.skip(1), sep)
    }
}

/// The pieces of `s` between occurrences of `sep`, in order. There is always
/// at least one piece; two separators in a row delimit an empty piece.
pub open spec fn split(s: Seq<u8>, sep: u8) -> Seq<Seq<u8>>
    decreases s.len(),
{
    let k = first_index(s, sep);
    if 0 <= k < s.len() {
        seq![s.take(k)] + split(s.skip(k + 1), sep)
    } else {
        seq![s]
    }
}

/// A half-open range `start..end` of positions in a byte string.
#[derive(Clone, Copy, Debug, PartialEq)]
pub struct Span {
    pub start: usize,
    pub end: usize,
}

impl Span {
    /// The range lies inside a text of `len` bytes.
    pub open spec fn within(self, len: nat) -> bool {
        self.start <= self.end <= len
    }

    /// The bytes of `text` that the range covers.
    pub open spec fn of(self, text: Seq<u8>) -> Seq<u8> {
        text.subrange(self.start as int, self.end as int)
    }
}

/// `spans` cover, one for one and in order, the pieces `pieces` of `text`.
pub open spec fn spans_cover(text: Seq<u8>, spans: Seq<Span>, pieces: Seq<Seq<u8>>) -> bool {
    &&& spans.len() == pieces.len()
    &&& forall|i: int|
        0 <= i < spans.len() ==> (#[trigger] spans[i]).within(text.len()) && spans[i].of(text)
            == pieces[i]
}

/// A position that holds the first separator, or the length where there is
/// none, is what `first_index` yields.
pub proof fn lemma_first_index_is(s: Seq<u8>, sep: u8, k: int)
    requires
        0 <= k <= s.len(),
        forall|j: int| 0 <= j < k ==> s[j] != sep,
        k < s.len() ==> s[k] == sep,
    ensures
        first_index(s, sep) == k,
    decreases s.len(),
{
    if s.len() > 0 && k > 0 {
        let t = s.skip(1);
        assert forall|j: int| 0 <= j < k - 1 implies t[j] != sep by {
            assert(t[j] == s[j + 1]);
        }
        lemma_first_index_is(t, sep, k - 1);
    }
}

/// Finds the first `sep` in `text[from..to]`: the result is its position in
/// `text`, or `to` where the window holds none.
pub fn find_byte(text: &[u8], from: usize, to: usize, sep: u8) -> (k: usize)
    requires
        from <= to <= text@.len(),
    ensures
        from <= k <= to,
        k - from == first_index(text@.subrange(from as int, to as int), sep),
{
    let mut k: usize = from;
    while k < to && text[k] != sep
        invariant
            from <= k <= to <= text@.len(),
            forall|j: int| from <= j < k ==> text@[j] != sep,
        decreases to - k,
    {
        k = k + 1;
    }
    proof {
        let w = text@.subrange(from as int, to as int);
        lemma_first_index_is(w, sep, k - from);
    }
    k
}

/// Splits `text[start..end]` at every `sep` and returns the pieces as ranges
/// of `text`, in order.
pub fn split_spans(text: &[u8], start: usize, end: usize, sep: u8) -> (spans: Vec<Span>)
    requires
        start <= end <= text@.len(),
    ensures
        spans_cover(text@, spans@, split(text@.subrange(start as int, end as int), sep)),
        forall|i: int|
            0 <= i < spans.len() ==> start <= (#[trigger] spans[i]).start
                && spans[i].end <= end,
{
    let mut spans: Vec<Span> = Vec::new();
    let mut pos: usize = start;
    let ghost window = text@.subrange(start as int, end as int);
    let ghost mut done: Seq<Seq<u8>> = Seq::empty();
    loop
        invariant_except_break
            start <= pos <= end <= text@.len(),
            window == text@.subrange(start as int, end as int),
            split(window, sep) == done + split(text@.subrange(pos as int, end as int), sep),
            spans_cover(text@, spans@, done),
            forall|i: int|
                0 <= i < spans.len() ==> start <= (#[trigger] spans[i]).start
                    && spans[i].end <= end,
        ensures
            start <= end <= text@.len(),
            spans_cover(text@, spans@, split(text@.subrange(start as int, end as int), sep)),
            forall|i: int|
                0 <= i < spans.len() ==> start <= (#[trigger] spans[i]).start
                    && spans[i].end <= end,
        decreases end - pos,
    {
        let k = find_byte(text, pos, end, sep);
        let ghost rest = text@.subrange(pos as int, end as int);
        let ghost piece = text@.subrange(pos as int, k as int);
        spans.push(Span { start: pos, end: k });
        if k == end {
            proof {
                assert(piece == rest);
                assert(split(rest, sep) == seq![rest]);
                assert(spans@ == spans@.drop_last().push(Span { start: pos, end: k }));
                assert(done.push(piece) == done + seq![rest]);
            }
            break ;
        }
        proof {
            assert(rest.take(k - pos) == piece);
            assert(rest.skip(k - pos + 1) == text@.subrange(k + 1, end as int));
            assert(split(rest, sep) == seq![piece] + split(
                text@.subrange(k + 1, end as int),
                sep,
            ));
            assert(done + (seq![piece] + split(text@.subrange(k + 1, end as int), sep))
                == done.push(piece) + split(text@.subrange(k + 1, end as int), sep));
            done = done.push(piece);
        }
        pos = k + 1;
    }
    spans
}

} // verus!
