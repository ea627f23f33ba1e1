//! Motions: where the word, line and vertical motions land, and the spans that
//! operators take from them.
use vstd::prelude::*;
use crate::text::{
    lemma_line_end_bounds, lemma_line_start_bounds, lemma_line_start_of_run, line_end, line_start,
};

verus! {

/// The Unicode `White_Space` property, the property that `char::is_whitespace`
/// reports: these twenty-five scalar values and no other.
pub open spec fn is_white_space(c: char) -> bool {
    let v = c as u32;
    ||| 0x09 <= v <= 0x0D
    ||| v == 0x20 || v == 0x85 || v == 0xA0 || v == 0x1680
    ||| 0x2000 <= v <= 0x200A
    ||| v == 0x2028 || v == 0x2029 || v == 0x202F || v == 0x205F || v == 0x3000
}

/// Whether `c` is white space.
pub fn is_whitespace(c: char) -> (r: bool)
    ensures
        r == is_white_space(c),
{
    let v = c as u32;
    (0x09 <= v && v <= 0x0D) || v == 0x20 || v == 0x85 || v == 0xA0 || v == 0x1680 || (0x2000
        <= v && v <= 0x200A) || v == 0x2028 || v == 0x2029 || v == 0x202F || v == 0x205F || v
        == 0x3000
}

/// First offset at or after `p` that is the end of the document or holds white space.
pub open spec fn skip_non_space(t: Seq<char>, p: int) -> int
    decreases t.len() - p,
{
    if p >= t.len() || is_white_space(t[p]) {
        p
    } else {
        skip_non_space(t, p + 1)
    }
}

/// First offset at or after `p` that is the end of the document or holds no white space.
pub open spec fn skip_space(t: Seq<char>, p: int) -> int
    decreases t.len() - p,
{
    if p >= t.len() || !is_white_space(t[p]) {
        p
    } else {
        skip_space(t, p + 1)
    }
}

/// Start of the next word: past the run of non-space at `p`, then past the run of
/// space that follows it.
pub open spec fn word_forward(t: Seq<char>, p: int) -> int {
    skip_space(t, skip_non_space(t, p))
}

/// Last offset at or before `p` whose preceding scalar is missing or not white space.
pub open spec fn back_skip_space(t: Seq<char>, p: int) -> int
    decreases p,
{
    if p <= 0 || !is_white_space(t[p - 1]) {
        p
    } else {
        back_skip_space(t, p - 1)
    }
}

/// Last offset at or before `p` whose preceding scalar is missing or white space.
pub open spec fn back_skip_non_space(t: Seq<char>, p: int) -> int
    decreases p,
{
    if p <= 0 || is_white_space(t[p - 1]) {
        p
    } else {
        back_skip_non_space(t, p - 1)
    }
}

/// Start of the word before `p`: back over space, then back over non-space.
pub open spec fn word_backward(t: Seq<char>, p: int) -> int {
    back_skip_non_space(t, back_skip_space(t, p))
}

pub proof fn lemma_skip_non_space(t: Seq<char>, p: int)
    requires
        0 <= p <= t.len(),
    ensures
        p <= skip_non_space(t, p) <= t.len(),
        p < t.len() && !is_white_space(t[p]) ==> p < skip_non_space(t, p),
    decreases t.len() - p,
{
    if p < t.len() && !is_white_space(t[p]) {
        lemma_skip_non_space(t, p + 1);
    }
}

pub proof fn lemma_skip_space(t: Seq<char>, p: int)
    requires
        0 <= p <= t.len(),
    ensures
        p <= skip_space(t, p) <= t.len(),
        p < t.len() && is_white_space(t[p]) ==> p < skip_space(t, p),
    decreases t.len() - p,
{
    if p < t.len() && is_white_space(t[p]) {
        lemma_skip_space(t, p + 1);
    }
}

pub proof fn lemma_word_forward(t: Seq<char>, p: int)
    requires
        0 <= p <= t.len(),
    ensures
        p <= word_forward(t, p) <= t.len(),
        p < t.len() ==> p < word_forward(t, p),
        p == t.len() ==> word_forward(t, p) == p,
{
    lemma_skip_non_space(t, p);
    lemma_skip_space(t, skip_non_space(t, p));
}

pub proof fn lemma_back_skip_space(t: Seq<char>, p: int)
    requires
        0 <= p <= t.len(),
    ensures
        0 <= back_skip_space(t, p) <= p,
        p > 0 && is_white_space(t[p - 1]) ==> back_skip_space(t, p) < p,
    decreases p,
{
    if p > 0 && is_white_space(t[p - 1]) {
        lemma_back_skip_space(t, p - 1);
    }
}

pub proof fn lemma_back_skip_non_space(t: Seq<char>, p: int)
    requires
        0 <= p <= t.len(),
    ensures
        0 <= back_skip_non_space(t, p) <= p,
        p > 0 && !is_white_space(t[p - 1]) ==> back_skip_non_space(t, p) < p,
    decreases p,
{
    if p > 0 && !is_white_space(t[p - 1]) {
        lemma_back_skip_non_space(t, p - 1);
    }
}

pub proof fn lemma_word_backward(t: Seq<char>, p: int)
    requires
        0 <= p <= t.len(),
    ensures
        0 <= word_backward(t, p) <= p,
        p > 0 ==> word_backward(t, p) < p,
{
    lemma_back_skip_space(t, p);
    lemma_back_skip_non_space(t, back_skip_space(t, p));
}

/// Start of the next word after offset `p`.
pub fn find_word_forward(t: &Vec<char>, p: usize) -> (r: usize)
    requires
        p <= t@.len(),
    ensures
        r == word_forward(t@, p as int),
{
    let mut i: usize = p;
    while i < t.len() && !is_whitespace(t[i])
        invariant
            p <= i <= t@.len(),
            skip_non_space(t@, i as int) == skip_non_space(t@, p as int),
        decreases t@.len() - i,
    {
        i = i + 1;
    }
    let mid: Ghost<int> = Ghost(i as int);
    while i < t.len() && is_whitespace(t[i])
        invariant
            i <= t@.len(),
            skip_space(t@, i as int) == skip_space(t@, mid@),
            mid@ == skip_non_space(t@, p as int),
        decreases t@.len() - i,
    {
        i = i + 1;
    }
    i
}

/// Start of the word before offset `p`.
pub fn find_word_backward(t: &Vec<char>, p: usize) -> (r: usize)
    requires
        p <= t@.len(),
    ensures
        r == word_backward(t@, p as int),
{
    let mut i: usize = p;
    while i > 0 && is_whitespace(t[i - 1])
        invariant
            i <= p,
            p <= t@.len(),
            back_skip_space(t@, i as int) == back_skip_space(t@, p as int),
        decreases i,
    {
        i = i - 1;
    }
    let mid: Ghost<int> = Ghost(i as int);
    while i > 0 && !is_whitespace(t[i - 1])
        invariant
            i <= mid@,
            mid@ <= t@.len(),
            back_skip_non_space(t@, i as int) == back_skip_non_space(t@, mid@),
            mid@ == back_skip_space(t@, p as int),
        decreases i,
    {
        i = i - 1;
    }
    i
}

/// Whether `char::is_alphanumeric` holds of `c`: whether it is alphabetic or
/// numeric in Unicode.
pub uninterp spec fn alphanumeric(c: char) -> bool;

/// Relies on `char::is_alphanumeric` to tell which scalars belong to words; its
/// result depends on the scalar alone.
#[verifier::external_body]
fn is_alphanumeric(c: char) -> (r: bool)
    ensures
        r == alphanumeric(c),
{
    c.is_alphanumeric()
}

/// A scalar that belongs to a word: alphanumeric, or an underscore.
pub open spec fn is_word_scalar(c: char) -> bool {
    alphanumeric(c) || c == '_'
}

/// Whether `c` belongs to a word.
pub fn is_word_char(c: char) -> (r: bool)
    ensures
        r == is_word_scalar(c),
{
    is_alphanumeric(c) || c == '_'
}

/// Which scalars of `t` belong to words.
pub open spec fn word_flags(t: Seq<char>) -> Seq<bool> {
    Seq::new(t.len(), |i: int| is_word_scalar(t[i]))
}

/// Flags the scalars of `t` that belong to words.
pub fn find_word_flags(t: &Vec<char>) -> (r: Vec<bool>)
    ensures
        r@ == word_flags(t@),
{
    let mut r: Vec<bool> = Vec::new();
    let mut i: usize = 0;
    while i < t.len()
        invariant
            i <= t@.len(),
            r@ == word_flags(t@).take(i as int),
        decreases t@.len() - i,
    {
        assert(word_flags(t@).take(i + 1) =~= word_flags(t@).take(i as int).push(is_word_scalar(t@[i as int])));
        r.push(is_word_char(t[i]));
        i = i + 1;
    }
    assert(r@ =~= word_flags(t@));
    r
}

/// First offset at or before `p` from which every flag up to `p` is set.
pub open spec fn run_start(w: Seq<bool>, p: int) -> int
    decreases p,
{
    if p <= 0 || !w[p - 1] {
        p
    } else {
        run_start(w, p - 1)
    }
}

/// First offset at or after `p` whose flag is clear, or the length.
pub open spec fn run_end(w: Seq<bool>, p: int) -> int
    decreases w.len() - p,
{
    if p >= w.len() || !w[p] {
        p
    } else {
        run_end(w, p + 1)
    }
}

/// The inner-word span at `p`, where `w` flags the word scalars of a document:
/// the maximal run of word scalars that holds `p` when `p` is a word scalar, else
/// the single scalar at `p`; empty when `p` is past the end.
pub open spec fn inner_word(w: Seq<bool>, p: int) -> (int, int) {
    if p < 0 || p >= w.len() {
        (p, p)
    } else if !w[p] {
        (p, p + 1)
    } else {
        (run_start(w, p), run_end(w, p))
    }
}

pub proof fn lemma_run_bounds(w: Seq<bool>, p: int)
    requires
        0 <= p <= w.len(),
    ensures
        0 <= run_start(w, p) <= p,
        p <= run_end(w, p) <= w.len(),
    decreases w.len() - p,
{
    lemma_run_start(w, p);
    if p < w.len() && w[p] {
        lemma_run_bounds(w, p + 1);
    }
}

proof fn lemma_run_start(w: Seq<bool>, p: int)
    requires
        0 <= p <= w.len(),
    ensures
        0 <= run_start(w, p) <= p,
    decreases p,
{
    if p > 0 && w[p - 1] {
        lemma_run_start(w, p - 1);
    }
}

pub proof fn lemma_inner_word(w: Seq<bool>, p: int)
    requires
        0 <= p <= w.len(),
    ensures
        0 <= inner_word(w, p).0 <= p <= inner_word(w, p).1 <= w.len(),
        p < w.len() ==> inner_word(w, p).0 < inner_word(w, p).1,
{
    lemma_run_bounds(w, p);
    if p < w.len() && w[p] {
        lemma_run_bounds(w, p + 1);
    }
}

/// The inner-word span at offset `p` of a document whose word scalars are flagged
/// in `w`.
pub fn inner_word_span(w: &Vec<bool>, p: usize) -> (r: (usize, usize))
    requires
        p <= w@.len(),
    ensures
        r.0 == inner_word(w@, p as int).0,
        r.1 == inner_word(w@, p as int).1,
{
    if p >= w.len() {
        return (p, p);
    }
    if !w[p] {
        return (p, p + 1);
    }
    let mut s: usize = p;
    while s > 0 && w[s - 1]
        invariant
            s <= p,
            p < w@.len(),
            run_start(w@, s as int) == run_start(w@, p as int),
        decreases s,
    {
        s = s - 1;
    }
    let mut e: usize = p;
    while e < w.len() && w[e]
        invariant
            p <= e <= w@.len(),
            run_end(w@, e as int) == run_end(w@, p as int),
        decreases w@.len() - e,
    {
        e = e + 1;
    }
    (s, e)
}

/// Where a move to the next line lands: `target` scalars into the line after the
/// one that holds `p`, or at its end when it is shorter; an empty line, such as
/// the one after a final terminator, is landed on at its start. None when the
/// line that holds `p` has no terminator.
pub open spec fn next_line_target(t: Seq<char>, p: int, target: int) -> Option<int> {
    let e = line_end(t, p);
    if e >= t.len() {
        None
    } else {
        let s = e + 1;
        let len = line_end(t, s) - s;
        Some(s + if target < len {
            target
        } else {
            len
        })
    }
}

/// Where a move to the previous line lands: `target` scalars into the line before
/// the one that holds `p`, or at its end when it is shorter. None on the first line.
pub open spec fn prev_line_target(t: Seq<char>, p: int, target: int) -> Option<int> {
    let s = line_start(t, p);
    if s == 0 {
        None
    } else {
        let ps = line_start(t, s - 1);
        let len = (s - 1) - ps;
        Some(ps + if target < len {
            target
        } else {
            len
        })
    }
}

pub proof fn lemma_next_line_target(t: Seq<char>, p: int, target: int)
    requires
        0 <= p <= t.len(),
        0 <= target,
    ensures
        next_line_target(t, p, target) matches Some(q) ==> p < q <= t.len() && line_start(t, q)
            == line_end(t, p) + 1,
{
    lemma_line_end_bounds(t, p);
    let e = line_end(t, p);
    if e < t.len() {
        let s = e + 1;
        lemma_line_end_bounds(t, s);
        let len = line_end(t, s) - s;
        let q = s + if target < len {
            target
        } else {
            len
        };
        lemma_line_start_of_run(t, s, q);
    }
}

pub proof fn lemma_prev_line_target(t: Seq<char>, p: int, target: int)
    requires
        0 <= p <= t.len(),
        0 <= target,
    ensures
        prev_line_target(t, p, target) matches Some(q) ==> 0 <= q < p && line_start(t, q)
            == line_start(t, line_start(t, p) - 1),
{
    lemma_line_start_bounds(t, p);
    let s = line_start(t, p);
    if s > 0 {
        lemma_line_start_bounds(t, s - 1);
        let ps = line_start(t, s - 1);
        let len = (s - 1) - ps;
        let q = ps + if target < len {
            target
        } else {
            len
        };
        lemma_line_start_of_run(t, ps, q);
    }
}

} // verus!
