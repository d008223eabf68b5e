//! Excerpts of a body that failed to decode, cut on character boundaries.

use vstd::prelude::*;
use vstd::string::*;
use vstd::utf8::*;

verus! {

broadcast use encode_utf8_valid_utf8, is_char_boundary_start_end_of_seq;

/// How many bytes the window reaches on each side of the failure offset.
pub const EXCERPT_RADIUS: usize = 25;

/// The largest character boundary of `b` at or before `i`; the end of `b`
/// where `i` lies past it.
pub open spec fn floor_boundary(b: Seq<u8>, i: int) -> int
    decreases i,
{
    if i >= b.len() {
        b.len() as int
    } else if i <= 0 {
        0
    } else if is_char_boundary(b, i) {
        i
    } else {
        floor_boundary(b, i - 1)
    }
}

/// Where the window starts, before it is snapped to a boundary.
pub open spec fn window_low(offset: int) -> int {
    if offset >= EXCERPT_RADIUS { offset - EXCERPT_RADIUS } else { 0 }
}

/// Where the window ends, before it is snapped to a boundary.
pub open spec fn window_high(len: int, offset: int) -> int {
    if offset + EXCERPT_RADIUS <= len { offset + EXCERPT_RADIUS } else { len }
}

/// A run of `n` spaces followed by a caret.
pub open spec fn caret_line(n: nat) -> Seq<char> {
    Seq::new(n, |k: int| ' ').push('^')
}

/// A window of a text around a failure offset, with a caret line that points
/// at the offset.
#[derive(Debug, Clone)]
pub struct Excerpt {
    /// Byte offset of the window's first byte.
    pub start: usize,
    /// Byte offset just past the window.
    pub end: usize,
    /// The text between `start` and `end`.
    pub context: String,
    /// Spaces up to the failure offset, then `^`.
    pub caret: String,
}

proof fn lemma_floor_boundary_is_boundary(b: Seq<u8>, i: int)
    requires
        valid_utf8(b),
    ensures
        0 <= floor_boundary(b, i) <= b.len(),
        floor_boundary(b, i) <= i || i < 0,
        is_char_boundary(b, floor_boundary(b, i)),
    decreases i,
{
    if i >= b.len() {
    } else if i <= 0 {
    } else if is_char_boundary(b, i) {
    } else {
        lemma_floor_boundary_is_boundary(b, i - 1);
    }
}

/// The largest character boundary of `text` at or before `index`, or the
/// text's length where `index` lies past it.
pub fn floor_char_boundary(text: &str, index: usize) -> (r: usize)
    ensures
        r == floor_boundary(text.spec_bytes(), index as int),
        r <= text.spec_bytes().len(),
        is_char_boundary(text.spec_bytes(), r as int),
{
    let len = text.as_bytes().len();
    proof {
        lemma_floor_boundary_is_boundary(text.spec_bytes(), index as int);
    }
    if index >= len {
        return len;
    }
    let mut i: usize = index;
    while !text.is_char_boundary(i)
        invariant
            i <= index < len,
            len == text.spec_bytes().len(),
            floor_boundary(text.spec_bytes(), i as int) == floor_boundary(
                text.spec_bytes(),
                index as int,
            ),
        decreases i,
    {
        i = i - 1;
    }
    i
}

/// A string of `n` spaces followed by `^`.
fn caret_of(n: usize) -> (r: String)
    ensures
        r@ == caret_line(n as nat),
{
    proof {
        reveal_strlit(" ");
        reveal_strlit("^");
    }
    let mut s = String::new();
    let mut k: usize = 0;
    while k < n
        invariant
            k <= n,
            s@ == Seq::new(k as nat, |j: int| ' '),
        decreases n - k,
    {
        s.append(" ");
        k = k + 1;
        proof {
            reveal_strlit(" ");
            assert(s@ =~= Seq::new(k as nat, |j: int| ' '));
        }
    }
    s.append("^");
    s
}

/// Cuts the window of `text` around `offset`: from `EXCERPT_RADIUS` bytes
/// before it to as many after it, clamped to the text and each edge moved
/// back to the nearest character boundary. Any text and any offset are
/// accepted, also one inside a character or past the end.
pub fn extract_excerpt(text: &str, offset: usize) -> (r: Excerpt)
    ensures
        r.start == floor_boundary(text.spec_bytes(), window_low(offset as int)),
        r.end == floor_boundary(
            text.spec_bytes(),
            window_high(text.spec_bytes().len() as int, offset as int),
        ),
        r.start <= r.end <= text.spec_bytes().len(),
        is_char_boundary(text.spec_bytes(), r.start as int),
        is_char_boundary(text.spec_bytes(), r.end as int),
        encode_utf8(r.context@) == text.spec_bytes().subrange(r.start as int, r.end as int),
        r.caret@ == caret_line((if offset >= r.start { offset - r.start } else { 0 }) as nat),
{
    let len = text.as_bytes().len();
    let low: usize = if offset >= EXCERPT_RADIUS { offset - EXCERPT_RADIUS } else { 0 };
    let high: usize = if offset <= len && len - offset >= EXCERPT_RADIUS {
        offset + EXCERPT_RADIUS
    } else {
        len
    };
    let start = floor_char_boundary(text, low);
    let end = floor_char_boundary(text, high);
    proof {
        let b = text.spec_bytes();
        if low <= high {
            lemma_floor_monotone(b, low as int, high as int);
        }
    }
    let (head, _) = text.split_at(end);
    proof {
        let b = text.spec_bytes();
        let p = b.subrange(0, end as int);
        assert(head.spec_bytes() == p);
        valid_utf8_split(b, end as int);
        if start < end && start > 0 {
            is_char_boundary_iff_not_is_continuation_byte(b, start as int);
            is_char_boundary_iff_not_is_continuation_byte(p, start as int);
        }
    }
    let (_, window) = head.split_at(start);
    let context = window.to_owned();
    proof {
        assert(encode_utf8(context@) == window.spec_bytes());
        assert(window.spec_bytes() =~= text.spec_bytes().subrange(start as int, end as int));
    }
    let caret = caret_of(if offset >= start { offset - start } else { 0 });
    Excerpt { start, end, context, caret }
}

proof fn lemma_floor_monotone(b: Seq<u8>, i: int, j: int)
    requires
        i <= j,
    ensures
        floor_boundary(b, i) <= floor_boundary(b, j),
    decreases j - i,
{
    if i < j {
        lemma_floor_monotone(b, i, j - 1);
        lemma_floor_step(b, j);
    }
}

proof fn lemma_floor_step(b: Seq<u8>, j: int)
    ensures
        floor_boundary(b, j - 1) <= floor_boundary(b, j),
    decreases j,
{
    if j >= b.len() {
        lemma_floor_le_len(b, j - 1);
    } else if j <= 0 {
    } else if is_char_boundary(b, j) {
        lemma_floor_le(b, j - 1);
    } else {
    }
}

proof fn lemma_floor_le_len(b: Seq<u8>, i: int)
    ensures
        floor_boundary(b, i) <= b.len(),
    decreases i,
{
    if i >= b.len() {
    } else if i <= 0 {
    } else if is_char_boundary(b, i) {
    } else {
        lemma_floor_le_len(b, i - 1);
    }
}

proof fn lemma_floor_le(b: Seq<u8>, i: int)
    ensures
        0 <= i < b.len() ==> floor_boundary(b, i) <= i,
    decreases i,
{
    if i >= b.len() {
    } else if i <= 0 {
    } else if is_char_boundary(b, i) {
    } else {
        lemma_floor_le(b, i - 1);
    }
}

} // verus!
