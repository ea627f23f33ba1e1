//! The document model: a sequence of Unicode scalar values, its lines and columns,
//! and the splicing operations that every edit is made of.
use vstd::prelude::*;
use vstd::utf8::{
    encode_scalar, encode_utf8, encode_utf8_first_scalar, encode_utf8_valid_utf8, is_char_boundary,
    pop_first_scalar,
};

verus! {

/// Offset of the first scalar of the line that holds offset `pos`: just after the
/// nearest line terminator before `pos`, or 0.
pub open spec fn line_start(t: Seq<char>, pos: int) -> int
    decreases pos,
{
    if pos <= 0 {
        0
    } else if t[pos - 1] == '\n' {
        pos
    } else {
        line_start(t, pos - 1)
    }
}

/// Offset of the terminator of the line that holds offset `pos`, or the length of
/// the document when that line has none.
pub open spec fn line_end(t: Seq<char>, pos: int) -> int
    decreases t.len() - pos,
{
    if pos >= t.len() {
        t.len() as int
    } else if t[pos] == '\n' {
        pos
    } else {
        line_end(t, pos + 1)
    }
}

/// Number of line terminators in `s`.
pub open spec fn count_breaks(s: Seq<char>) -> nat
    decreases s.len(),
{
    if s.len() == 0 {
        0
    } else {
        count_breaks(s.drop_last()) + if s.last() == '\n' {
            1nat
        } else {
            0nat
        }
    }
}

/// Zero-based line of offset `pos`: the terminators before it.
pub open spec fn line_of(t: Seq<char>, pos: int) -> nat {
    count_breaks(t.take(pos))
}

/// Zero-based column of offset `pos`, in scalars from the start of its line.
pub open spec fn column_of(t: Seq<char>, pos: int) -> int {
    pos - line_start(t, pos)
}

/// `t` with the scalars in `[a, b)` replaced by `ins`.
pub open spec fn splice(t: Seq<char>, a: int, b: int, ins: Seq<char>) -> Seq<char> {
    t.take(a) + ins + t.skip(b)
}

pub proof fn lemma_line_start_bounds(t: Seq<char>, pos: int)
    requires
        0 <= pos <= t.len(),
    ensures
        0 <= line_start(t, pos) <= pos,
        line_start(t, pos) == 0 || t[line_start(t, pos) - 1] == '\n',
        forall|i: int| line_start(t, pos) <= i < pos ==> t[i] != '\n',
    decreases pos,
{
    if pos > 0 && t[pos - 1] != '\n' {
        lemma_line_start_bounds(t, pos - 1);
    }
}

pub proof fn lemma_line_end_bounds(t: Seq<char>, pos: int)
    requires
        0 <= pos <= t.len(),
    ensures
        pos <= line_end(t, pos) <= t.len(),
        line_end(t, pos) == t.len() || t[line_end(t, pos)] == '\n',
        forall|i: int| pos <= i < line_end(t, pos) ==> t[i] != '\n',
    decreases t.len() - pos,
{
    if pos < t.len() && t[pos] != '\n' {
        lemma_line_end_bounds(t, pos + 1);
    }
}

/// Offset of the start of the line that holds `pos`.
pub fn find_line_start(t: &Vec<char>, pos: usize) -> (r: usize)
    requires
        pos <= t@.len(),
    ensures
        r == line_start(t@, pos as int),
        r <= pos,
{
    let mut i: usize = pos;
    while i > 0 && t[i - 1] != '\n'
        invariant
            i <= pos,
            pos <= t@.len(),
            line_start(t@, i as int) == line_start(t@, pos as int),
        decreases i,
    {
        i = i - 1;
    }
    proof {
        lemma_line_start_bounds(t@, pos as int);
    }
    i
}

/// Offset of the terminator of the line that holds `pos`, or the length.
pub fn find_line_end(t: &Vec<char>, pos: usize) -> (r: usize)
    requires
        pos <= t@.len(),
    ensures
        r == line_end(t@, pos as int),
        pos <= r <= t@.len(),
{
    let mut i: usize = pos;
    while i < t.len() && t[i] != '\n'
        invariant
            pos <= i <= t@.len(),
            line_end(t@, i as int) == line_end(t@, pos as int),
        decreases t@.len() - i,
    {
        i = i + 1;
    }
    proof {
        lemma_line_end_bounds(t@, pos as int);
    }
    i
}

/// Number of line terminators before offset `pos`.
pub fn count_breaks_before(t: &Vec<char>, pos: usize) -> (r: usize)
    requires
        pos <= t@.len(),
    ensures
        r == line_of(t@, pos as int),
{
    let mut i: usize = 0;
    let mut n: usize = 0;
    while i < pos
        invariant
            i <= pos,
            pos <= t@.len(),
            n == count_breaks(t@.take(i as int)),
            n <= i,
        decreases pos - i,
    {
        assert(t@.take(i + 1).drop_last() =~= t@.take(i as int));
        if t[i] == '\n' {
            n = n + 1;
        }
        i = i + 1;
    }
    n
}

/// Appends the scalars of `src` in `[a, b)` to `dst`.
pub fn push_range(dst: &mut Vec<char>, src: &Vec<char>, a: usize, b: usize)
    requires
        a <= b <= src@.len(),
    ensures
        final(dst)@ == old(dst)@ + src@.subrange(a as int, b as int),
{
    let mut i: usize = a;
    while i < b
        invariant
            a <= i <= b,
            b <= src@.len(),
            dst@ == old(dst)@ + src@.subrange(a as int, i as int),
        decreases b - i,
    {
        assert(src@.subrange(a as int, i + 1) =~= src@.subrange(a as int, i as int).push(src@[i as int]));
        dst.push(src[i]);
        i = i + 1;
    }
}

/// The scalars of `t` in `[a, b)`.
pub fn copy_range(t: &Vec<char>, a: usize, b: usize) -> (r: Vec<char>)
    requires
        a <= b <= t@.len(),
    ensures
        r@ == t@.subrange(a as int, b as int),
{
    let mut r: Vec<char> = Vec::new();
    push_range(&mut r, t, a, b);
    assert(r@ =~= t@.subrange(a as int, b as int));
    r
}

/// `t` with the scalars in `[a, b)` replaced by `ins`.
pub fn splice_text(t: &Vec<char>, a: usize, b: usize, ins: &Vec<char>) -> (r: Vec<char>)
    requires
        a <= b <= t@.len(),
    ensures
        r@ == splice(t@, a as int, b as int, ins@),
{
    let mut r: Vec<char> = Vec::new();
    push_range(&mut r, t, 0, a);
    push_range(&mut r, ins, 0, ins.len());
    push_range(&mut r, t, b, t.len());
    assert(r@ =~= splice(t@, a as int, b as int, ins@));
    r
}

/// Whether `v` holds a line terminator.
pub fn contains_break(v: &Vec<char>) -> (r: bool)
    ensures
        r == v@.contains('\n'),
{
    let mut i: usize = 0;
    while i < v.len()
        invariant
            i <= v@.len(),
            forall|k: int| 0 <= k < i ==> v@[k] != '\n',
        decreases v@.len() - i,
    {
        if v[i] == '\n' {
            return true;
        }
        i = i + 1;
    }
    false
}

/// The scalar values of `s`, in order.
pub fn chars_of(s: &str) -> (r: Vec<char>)
    ensures
        r@ == s@,
{
    let mut v: Vec<char> = Vec::new();
    for c in it: s.chars()
        invariant
            v@ == it.seq().take(it.index() as int),
    {
        v.push(c);
    }
    v
}

/// Relies on `FromIterator<&char>` for `String` (through `collect`): the string
/// made of the given scalar values, in order.
#[verifier::external_body]
pub(crate) fn string_of(v: &Vec<char>) -> (r: String)
    ensures
        r@ == v@,
{
    v.iter().collect()
}

/// Within a stretch without terminators that starts a line, every offset has
/// that line start.
pub proof fn lemma_line_start_of_run(t: Seq<char>, s: int, q: int)
    requires
        0 <= s <= q <= t.len(),
        s == 0 || t[s - 1] == '\n',
        forall|i: int| s <= i < q ==> t[i] != '\n',
    ensures
        line_start(t, q) == s,
    decreases q - s,
{
    if q > s {
        lemma_line_start_of_run(t, s, q - 1);
    }
}

/// Within a stretch without terminators that ends a line, every offset has that
/// line end.
pub proof fn lemma_line_end_of_run(t: Seq<char>, p: int, e: int)
    requires
        0 <= p <= e <= t.len(),
        e == t.len() || t[e] == '\n',
        forall|i: int| p <= i < e ==> t[i] != '\n',
    ensures
        line_end(t, p) == e,
    decreases e - p,
{
    if p < e {
        lemma_line_end_of_run(t, p + 1, e);
    }
}

/// The UTF-8 encoding of a concatenation is the concatenation of the encodings.
pub proof fn lemma_encode_concat(a: Seq<char>, b: Seq<char>)
    ensures
        encode_utf8(a + b) == encode_utf8(a) + encode_utf8(b),
    decreases a.len(),
{
    if a.len() == 0 {
        assert(a + b =~= b);
        assert(encode_utf8(a) + encode_utf8(b) =~= encode_utf8(b));
    } else {
        assert((a + b).drop_first() =~= a.drop_first() + b);
        lemma_encode_concat(a.drop_first(), b);
        assert(encode_utf8(a + b) =~= encode_utf8(a) + encode_utf8(b));
    }
}

/// The encoding of the first `k` scalars of `t` ends on a scalar boundary of the
/// encoding of `t`.
pub proof fn lemma_prefix_is_boundary(t: Seq<char>, k: int)
    requires
        0 <= k <= t.len(),
    ensures
        is_char_boundary(encode_utf8(t), encode_utf8(t.take(k)).len() as int),
        encode_utf8(t.take(k)).len() <= encode_utf8(t).len(),
    decreases k,
{
    let bytes = encode_utf8(t);
    encode_utf8_valid_utf8(t);
    assert(t =~= t.take(k) + t.skip(k));
    lemma_encode_concat(t.take(k), t.skip(k));
    if k > 0 {
        encode_utf8_first_scalar(t);
        assert(pop_first_scalar(bytes) =~= encode_utf8(t.drop_first()));
        assert(t.take(k).drop_first() =~= t.drop_first().take(k - 1));
        assert(t.take(k)[0] == t[0]);
        assert(encode_utf8(t.take(k)) == encode_scalar(t[0] as u32) + encode_utf8(t.drop_first().take(k - 1)));
        lemma_prefix_is_boundary(t.drop_first(), k - 1);
    }
}

} // verus!
