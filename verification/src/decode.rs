//! Line-delimited framing for streamed response bodies.
//!
//! A streamed response body arrives as a sequence of byte buffers. Each
//! buffer is framed into lines on `\n`, every line is trimmed of ASCII
//! whitespace, and blank lines are dropped. The surviving lines are the
//! candidates for JSON parsing; the per-buffer decode policy (one error
//! item for a buffer with no parsable content, one `Malformed` item per
//! line that failed to parse) is applied by [`decode_items`].
//!
//! Framing never reaches across buffers: a line split over two
//! deliveries is not stitched together, a documented limitation of the
//! decoder.
//!
//! Trimming is byte-level and deliberately covers the ASCII whitespace
//! bytes alone: the wire format is JSON framed by ASCII `\n`, so this
//! is the whole of the whitespace a well-formed stream can carry. A
//! line made only of other Unicode whitespace counts as content and is
//! handed to the parser, which rejects it as malformed.

use vstd::prelude::*;
use vstd::seq_lib::*;

use crate::error::DecodeError;

verus! {

/// One item of a decoded chunk stream.
pub type StreamChunk<T> = Result<T, DecodeError>;

/// The ASCII bytes that are stripped from both ends of a line.
pub open spec fn is_line_ws(b: u8) -> bool {
    b == 32 || b == 9 || b == 10 || b == 13 || b == 11 || b == 12
}

/// Splits a byte sequence on `\n`. Every `\n` ends a segment, so a
/// trailing `\n` contributes a final empty segment and the result is
/// never empty.
pub open spec fn split_on_newline(s: Seq<u8>) -> Seq<Seq<u8>>
    decreases s.len(),
{
    if s.len() == 0 {
        seq![Seq::<u8>::empty()]
    } else if s[0] == 10 {
        seq![Seq::<u8>::empty()].add(split_on_newline(s.drop_first()))
    } else {
        let rest = split_on_newline(s.drop_first());
        seq![seq![s[0]].add(rest[0])].add(rest.drop_first())
    }
}

proof fn lemma_split_nonempty(s: Seq<u8>)
    ensures
        split_on_newline(s).len() >= 1,
    decreases s.len(),
{
    if s.len() > 0 && s[0] != 10 {
        lemma_split_nonempty(s.drop_first());
    }
}

/// How one appended byte extends the framing: a `\n` opens a new empty
/// segment, any other byte grows the last segment.
proof fn lemma_split_push(s: Seq<u8>, b: u8)
    ensures
        b == 10 ==> split_on_newline(s.push(b)) =~~= split_on_newline(s).push(
            Seq::<u8>::empty(),
        ),
        b != 10 ==> split_on_newline(s.push(b)) =~~= split_on_newline(s).update(
            split_on_newline(s).len() - 1,
            split_on_newline(s).last().push(b),
        ),
    decreases s.len(),
{
    lemma_split_nonempty(s);
    if s.len() == 0 {
        assert(s.push(b).drop_first() =~= Seq::<u8>::empty());
        assert(split_on_newline(Seq::<u8>::empty()) =~~= seq![Seq::<u8>::empty()]);
    } else {
        let t = s.drop_first();
        assert(s.push(b).drop_first() =~= t.push(b));
        lemma_split_push(t, b);
        lemma_split_nonempty(t);
        let rest = split_on_newline(t);
        let rest2 = split_on_newline(t.push(b));
        assert(s.push(b)[0] == s[0]);
        if s[0] == 10 {
            if b != 10 {
                assert(split_on_newline(s) =~~= seq![Seq::<u8>::empty()].add(rest));
                assert(split_on_newline(s.push(b)) =~~= seq![Seq::<u8>::empty()].add(rest2));
                assert(split_on_newline(s.push(b)) =~~= split_on_newline(s).update(
                    split_on_newline(s).len() - 1,
                    split_on_newline(s).last().push(b),
                ));
            }
        } else {
            if b == 10 {
                assert(rest2 =~~= rest.push(Seq::<u8>::empty()));
                assert(rest2[0] == rest[0]);
                assert(rest2.drop_first() =~~= rest.drop_first().push(Seq::<u8>::empty()));
                assert(split_on_newline(s.push(b)) =~~= split_on_newline(s).push(
                    Seq::<u8>::empty(),
                ));
            } else {
                assert(rest2 =~~= rest.update(rest.len() - 1, rest.last().push(b)));
                if rest.len() == 1 {
                    assert(rest2[0] == rest.last().push(b));
                    assert(rest2.drop_first() =~~= rest.drop_first());
                    assert(seq![s[0]].add(rest[0].push(b)) =~= (seq![s[0]].add(rest[0])).push(b));
                    assert(split_on_newline(s.push(b)) =~~= split_on_newline(s).update(
                        split_on_newline(s).len() - 1,
                        split_on_newline(s).last().push(b),
                    ));
                } else {
                    assert(rest2[0] == rest[0]);
                    assert(rest2.drop_first() =~~= rest.drop_first().update(
                        rest.len() - 2,
                        rest.last().push(b),
                    ));
                    assert(split_on_newline(s.push(b)) =~~= split_on_newline(s).update(
                        split_on_newline(s).len() - 1,
                        split_on_newline(s).last().push(b),
                    ));
                }
            }
        }
    }
}

/// Drops leading whitespace bytes.
pub open spec fn trim_front(s: Seq<u8>) -> Seq<u8>
    decreases s.len(),
{
    if s.len() > 0 && is_line_ws(s[0]) {
        trim_front(s.drop_first())
    } else {
        s
    }
}

/// Drops trailing whitespace bytes.
pub open spec fn trim_back(s: Seq<u8>) -> Seq<u8>
    decreases s.len(),
{
    if s.len() > 0 && is_line_ws(s.last()) {
        trim_back(s.drop_last())
    } else {
        s
    }
}

/// Drops whitespace bytes from both ends.
pub open spec fn trim_spec(s: Seq<u8>) -> Seq<u8> {
    trim_back(trim_front(s))
}

proof fn lemma_trim_front_range(s: Seq<u8>, lo: int)
    requires
        0 <= lo <= s.len(),
        forall|i: int| 0 <= i < lo ==> is_line_ws(s[i]),
        lo == s.len() || !is_line_ws(s[lo]),
    ensures
        trim_front(s) =~= s.subrange(lo, s.len() as int),
    decreases lo,
{
    if lo == 0 {
        assert(s.subrange(0, s.len() as int) =~= s);
    } else {
        lemma_trim_front_range(s.drop_first(), lo - 1);
        assert(s.drop_first().subrange(lo - 1, s.drop_first().len() as int) =~= s.subrange(
            lo,
            s.len() as int,
        ));
    }
}

proof fn lemma_trim_back_range(s: Seq<u8>, hi: int)
    requires
        0 <= hi <= s.len(),
        forall|i: int| hi <= i < s.len() ==> is_line_ws(s[i]),
        hi == 0 || !is_line_ws(s[hi - 1]),
    ensures
        trim_back(s) =~= s.subrange(0, hi),
    decreases s.len() - hi,
{
    if hi == s.len() {
        assert(s.subrange(0, hi) =~= s);
    } else {
        assert(is_line_ws(s.last()));
        lemma_trim_back_range(s.drop_last(), hi);
        assert(s.drop_last().subrange(0, hi) =~= s.subrange(0, hi));
    }
}

/// Connects the two scan indices that the executable trim computes with
/// the recursive trim specification.
proof fn lemma_trim_range(s: Seq<u8>, lo: int, hi: int)
    requires
        0 <= lo <= hi <= s.len(),
        forall|i: int| 0 <= i < lo ==> is_line_ws(s[i]),
        forall|i: int| hi <= i < s.len() ==> is_line_ws(s[i]),
        lo < s.len() ==> !is_line_ws(s[lo]),
        hi > lo ==> !is_line_ws(s[hi - 1]),
    ensures
        trim_spec(s) =~= s.subrange(lo, hi),
{
    if lo == s.len() {
        lemma_trim_front_range(s, lo);
        assert(trim_front(s) =~= Seq::<u8>::empty());
        assert(s.subrange(lo, hi) =~= Seq::<u8>::empty());
    } else {
        lemma_trim_front_range(s, lo);
        let t = s.subrange(lo, s.len() as int);
        lemma_trim_back_range(t, hi - lo);
        assert(t.subrange(0, hi - lo) =~= s.subrange(lo, hi));
    }
}

fn is_ws_byte(b: u8) -> (r: bool)
    ensures
        r == is_line_ws(b),
{
    b == 32 || b == 9 || b == 10 || b == 13 || b == 11 || b == 12
}

/// Strips ASCII whitespace from both ends of a line.
pub fn trim_bytes(line: &[u8]) -> (r: Vec<u8>)
    ensures
        r@ =~= trim_spec(line@),
{
    let mut lo: usize = 0;
    while lo < line.len() && is_ws_byte(line[lo])
        invariant
            0 <= lo <= line@.len(),
            forall|i: int| 0 <= i < lo ==> is_line_ws(line@[i]),
        decreases line@.len() - lo,
    {
        lo = lo + 1;
    }
    let mut hi: usize = line.len();
    while hi > lo && is_ws_byte(line[hi - 1])
        invariant
            lo <= hi <= line@.len(),
            forall|i: int| hi <= i < line@.len() ==> is_line_ws(line@[i]),
        decreases hi,
    {
        hi = hi - 1;
    }
    let mut r: Vec<u8> = Vec::new();
    let mut i: usize = lo;
    while i < hi
        invariant
            lo <= i <= hi <= line@.len(),
            r@ =~= line@.subrange(lo as int, i as int),
        decreases hi - i,
    {
        r.push(line[i]);
        assert(r@ =~= line@.subrange(lo as int, i + 1));
        i = i + 1;
    }
    proof {
        lemma_trim_range(line@, lo as int, hi as int);
    }
    r
}

/// Splits a buffer into segments on `\n`, keeping empty segments.
fn split_segments(buf: &[u8]) -> (segs: Vec<Vec<u8>>)
    ensures
        segs.deep_view() =~~= split_on_newline(buf@),
{
    let mut segs: Vec<Vec<u8>> = Vec::new();
    let mut cur: Vec<u8> = Vec::new();
    let mut i: usize = 0;
    proof {
        assert(buf@.subrange(0, 0) =~= Seq::<u8>::empty());
    }
    while i < buf.len()
        invariant
            0 <= i <= buf@.len(),
            split_on_newline(buf@.subrange(0, i as int)) =~~= segs.deep_view().push(cur@),
        decreases buf@.len() - i,
    {
        let ghost pre = buf@.subrange(0, i as int);
        proof {
            assert(buf@.subrange(0, i + 1) =~= pre.push(buf@[i as int]));
            lemma_split_push(pre, buf@[i as int]);
            lemma_split_nonempty(pre);
        }
        if buf[i] == 10 {
            segs.push(cur);
            cur = Vec::new();
        } else {
            let b = buf[i];
            cur.push(b);
        }
        i = i + 1;
    }
    proof {
        assert(buf@.subrange(0, buf@.len() as int) =~= buf@);
    }
    segs.push(cur);
    segs
}

/// The trimming step, as a function value.
pub open spec fn trim_fn() -> spec_fn(Seq<u8>) -> Seq<u8> {
    |l: Seq<u8>| trim_spec(l)
}

/// The blank-line test, as a function value.
pub open spec fn nonblank_fn() -> spec_fn(Seq<u8>) -> bool {
    |l: Seq<u8>| l.len() != 0
}

/// Trims every segment and keeps the non-blank ones, in order.
pub open spec fn surviving_lines(segs: Seq<Seq<u8>>) -> Seq<Seq<u8>> {
    segs.map_values(trim_fn()).filter(nonblank_fn())
}

/// What framing a buffer yields: split on `\n`, trim each line, drop the
/// blank ones, preserving order.
pub open spec fn extract_lines_spec(buf: Seq<u8>) -> Seq<Seq<u8>> {
    surviving_lines(split_on_newline(buf))
}

/// Frames one delivered buffer into its candidate lines: the buffer is
/// split on `\n`, each line is trimmed of ASCII whitespace, and blank
/// lines are dropped. Order follows the buffer.
pub fn extract_lines(buf: &[u8]) -> (lines: Vec<Vec<u8>>)
    ensures
        lines.deep_view() =~~= extract_lines_spec(buf@),
{
    let segs = split_segments(buf);
    let mut lines: Vec<Vec<u8>> = Vec::new();
    let mut j: usize = 0;
    proof {
        reveal(Seq::filter);
        assert(segs.deep_view().subrange(0, 0) =~= Seq::<Seq<u8>>::empty());
        assert(surviving_lines(Seq::<Seq<u8>>::empty()) =~~= Seq::<Seq<u8>>::empty());
    }
    while j < segs.len()
        invariant
            0 <= j <= segs@.len(),
            segs@.len() == segs.deep_view().len(),
            lines.deep_view() =~~= surviving_lines(segs.deep_view().subrange(0, j as int)),
        decreases segs@.len() - j,
    {
        let ghost prefix = segs.deep_view().subrange(0, j as int);
        let ghost seg = segs.deep_view()[j as int];
        let t = trim_bytes(segs[j].as_slice());
        proof {
            assert(seg =~= segs@[j as int]@);
            assert(t@ =~= trim_spec(seg));
            assert(segs.deep_view().subrange(0, j + 1) =~~= prefix.push(seg));
            assert(prefix.push(seg).map_values(trim_fn()) =~~= prefix.map_values(trim_fn()).push(
                trim_fn()(seg),
            ));
            prefix.map_values(trim_fn()).lemma_filter_push(trim_fn()(seg), nonblank_fn());
            assert(trim_fn()(seg) == trim_spec(seg));
        }
        let ghost pre_lines = lines.deep_view();
        if t.len() > 0 {
            lines.push(t);
            proof {
                assert(t.deep_view() =~= t@);
                assert(lines.deep_view() =~~= pre_lines.push(t.deep_view()));
                assert(nonblank_fn()(trim_fn()(seg)));
            }
        } else {
            proof {
                assert(!nonblank_fn()(trim_fn()(seg)));
            }
        }
        j = j + 1;
    }
    proof {
        assert(segs.deep_view().subrange(0, segs.deep_view().len() as int) =~~= segs.deep_view());
    }
    lines
}

/// The lines joined back into one buffer, each line ended by `\n`.
pub open spec fn joined_lines(lines: Seq<Seq<u8>>) -> Seq<u8>
    decreases lines.len(),
{
    if lines.len() == 0 {
        Seq::<u8>::empty()
    } else {
        lines[0] + seq![10u8] + joined_lines(lines.drop_first())
    }
}

proof fn lemma_split_line_prefix(l: Seq<u8>, rest: Seq<u8>)
    requires
        forall|j: int| 0 <= j < l.len() ==> l[j] != 10,
    ensures
        split_on_newline(l + seq![10u8] + rest) =~~= seq![l] + split_on_newline(rest),
    decreases l.len(),
{
    if l.len() == 0 {
        assert(l + seq![10u8] + rest =~= seq![10u8] + rest);
        assert((seq![10u8] + rest)[0] == 10);
        assert((seq![10u8] + rest).drop_first() =~= rest);
    } else {
        let s = l + seq![10u8] + rest;
        assert(s[0] == l[0]);
        assert(s[0] != 10);
        assert(s.drop_first() =~= l.drop_first() + seq![10u8] + rest);
        lemma_split_line_prefix(l.drop_first(), rest);
        lemma_split_nonempty(rest);
        let tail = split_on_newline(s.drop_first());
        assert(tail =~~= seq![l.drop_first()] + split_on_newline(rest));
        assert(tail[0] == l.drop_first());
        assert(seq![s[0]].add(tail[0]) =~= l);
        assert(tail.drop_first() =~~= split_on_newline(rest));
    }
}

/// Law: a buffer made of `\n`-terminated lines, each already trimmed
/// and non-blank, frames into exactly those lines, in order: no line is
/// dropped, none is reordered, and the later lines survive whatever
/// stands before them.
pub proof fn lemma_extract_lines_exact(lines: Seq<Seq<u8>>)
    requires
        forall|i: int| 0 <= i < lines.len() ==> trim_spec(#[trigger] lines[i]) == lines[i],
        forall|i: int| 0 <= i < lines.len() ==> (#[trigger] lines[i]).len() > 0,
        forall|i: int, j: int|
            0 <= i < lines.len() && 0 <= j < lines[i].len() ==> #[trigger] lines[i][j] != 10,
    ensures
        extract_lines_spec(joined_lines(lines)) =~~= lines,
    decreases lines.len(),
{
    reveal(Seq::filter);
    if lines.len() == 0 {
        assert(split_on_newline(Seq::<u8>::empty()) =~~= seq![Seq::<u8>::empty()]);
        assert(trim_spec(Seq::<u8>::empty()) =~= Seq::<u8>::empty());
        assert(seq![Seq::<u8>::empty()].map_values(trim_fn()) =~~= seq![Seq::<u8>::empty()]);
        assert(seq![Seq::<u8>::empty()].filter(nonblank_fn()).len() == 0) by {
            reveal_with_fuel(Seq::filter, 2);
            assert(seq![Seq::<u8>::empty()].drop_last() =~~= Seq::<Seq<u8>>::empty());
        }
    } else {
        let l = lines[0];
        let rest = lines.drop_first();
        assert(forall|i: int| 0 <= i < rest.len() ==> rest[i] == lines[i + 1]);
        assert(forall|i: int, j: int|
            0 <= i < rest.len() && 0 <= j < rest[i].len() ==> #[trigger] rest[i][j] == lines[i
                + 1][j]);
        lemma_extract_lines_exact(rest);
        lemma_split_line_prefix(l, joined_lines(rest));
        let split_rest = split_on_newline(joined_lines(rest));
        assert(split_on_newline(joined_lines(lines)) =~~= seq![l] + split_rest);
        assert((seq![l] + split_rest).map_values(trim_fn()) =~~= seq![l].map_values(trim_fn())
            + split_rest.map_values(trim_fn()));
        Seq::filter_distributes_over_add(
            seq![l].map_values(trim_fn()),
            split_rest.map_values(trim_fn()),
            nonblank_fn(),
        );
        assert(seq![l].map_values(trim_fn()) =~~= seq![l]);
        assert(seq![l].filter(nonblank_fn()) =~~= seq![l]) by {
            reveal_with_fuel(Seq::filter, 2);
            assert(seq![l].drop_last() =~~= Seq::<Seq<u8>>::empty());
        }
        assert(surviving_lines(split_rest) =~~= rest);
        assert(extract_lines_spec(joined_lines(lines)) =~~= seq![l] + rest);
        assert(seq![l] + rest =~~= lines);
    }
}

/// A line that failed to parse, together with the parser's message.
#[derive(Debug, Clone, PartialEq, Eq)]
pub struct MalformedLine {
    /// The trimmed line as text.
    pub raw_line: String,
    /// The parser's description of the failure.
    pub cause: String,
}

/// How one per-line parse outcome appears in the decoded stream.
pub open spec fn item_of<T>(p: Result<T, MalformedLine>) -> Result<T, DecodeError> {
    match p {
        Ok(c) => Ok(c),
        Err(m) => Err(DecodeError::Malformed { raw_line: m.raw_line, cause: m.cause }),
    }
}

/// Applies the per-buffer decode policy to the parse outcomes of one
/// buffer's surviving lines: a buffer with no parsable content yields a
/// single `EmptyChunk` error item; otherwise every line yields its own
/// item, `Ok` for a parsed chunk and `Malformed` for a failed line, in
/// line order.
pub fn decode_items<T>(parsed: Vec<Result<T, MalformedLine>>) -> (items: Vec<StreamChunk<T>>)
    ensures
        parsed@.len() == 0 ==> items@ =~= seq![
            Err::<T, DecodeError>(DecodeError::EmptyChunk),
        ],
        parsed@.len() > 0 ==> items@.len() == parsed@.len() && (forall|i: int|
            0 <= i < parsed@.len() ==> items@[i] == item_of(parsed@[i])),
{
    let ghost orig = parsed@;
    let mut rest = parsed;
    if rest.len() == 0 {
        let mut items: Vec<StreamChunk<T>> = Vec::new();
        items.push(Err(DecodeError::EmptyChunk));
        return items;
    }
    let mut items: Vec<StreamChunk<T>> = Vec::new();
    while rest.len() > 0
        invariant
            items@.len() + rest@.len() == orig.len(),
            rest@ =~= orig.subrange(items@.len() as int, orig.len() as int),
            forall|i: int| 0 <= i < items@.len() ==> items@[i] == item_of(orig[i]),
        decreases rest@.len(),
    {
        let ghost k = items@.len() as int;
        let p = rest.remove(0);
        proof {
            assert(p == orig[k]);
            assert(rest@ =~= orig.subrange(k + 1, orig.len() as int));
        }
        match p {
            Ok(c) => items.push(Ok(c)),
            Err(m) => items.push(
                Err(DecodeError::Malformed { raw_line: m.raw_line, cause: m.cause }),
            ),
        }
    }
    items
}

} // verus!
