//! Properties of the engine that hold of every state or of sequences of events,
//! proved from the transition functions that the handlers implement.
use vstd::prelude::*;
use vstd::utf8::{encode_utf8, is_char_boundary};
use crate::editor::{key_step, line_span_end, EditorState, SimpleEditor};
use crate::keys::Key;
use crate::modes::{VimMode, VimOperation};
use crate::motion::lemma_word_forward;
use crate::text::{
    lemma_line_end_bounds, lemma_line_end_of_run, lemma_line_start_bounds,
    lemma_line_start_of_run, lemma_prefix_is_boundary, line_end, line_start, splice,
};

verus! {

/// In every state that the engine can reach, the cursor lies in `[0, length]`
/// and, as a byte offset into the UTF-8 encoding of the document, on a scalar
/// boundary.
pub proof fn cursor_on_char_boundary(e: &SimpleEditor)
    requires
        e.wf(),
    ensures
        0 <= e@.cursor <= e@.text.len(),
        is_char_boundary(encode_utf8(e@.text), encode_utf8(e@.text.take(e@.cursor)).len() as int),
        encode_utf8(e@.text.take(e@.cursor)).len() <= encode_utf8(e@.text).len(),
{
    e.lemma_wf();
    lemma_prefix_is_boundary(e@.text, e@.cursor);
}

/// Escape in Normal mode changes neither the document nor the mode, nor the
/// cursor or the register; it abandons any pending operator, and the host gets
/// it back as not consumed.
pub proof fn escape_in_normal_mode(s: EditorState, shift: bool)
    requires
        s.inv(),
        s.mode == VimMode::Normal,
    ensures
        key_step(s, Key::Escape, shift).0.text == s.text,
        key_step(s, Key::Escape, shift).0.mode == VimMode::Normal,
        key_step(s, Key::Escape, shift).0.cursor == s.cursor,
        key_step(s, Key::Escape, shift).0.register == s.register,
        key_step(s, Key::Escape, shift).0.op == VimOperation::Idle,
        !key_step(s, Key::Escape, shift).1,
        key_step(s, Key::Escape, shift).2 is None,
{
}

/// With `d` pending, a second `d` on a document of one line without terminator
/// empties the document, leaves the cursor at 0, puts the old document in the
/// register and stays in Normal mode.
pub proof fn second_d_on_only_line(s: EditorState, shift: bool)
    requires
        s.inv(),
        s.mode == VimMode::Normal,
        s.op == VimOperation::Delete,
        !s.inner,
        !s.text.contains('\n'),
    ensures
        key_step(s, Key::D, shift).0.text.len() == 0,
        key_step(s, Key::D, shift).0.cursor == 0,
        key_step(s, Key::D, shift).0.register == s.text,
        key_step(s, Key::D, shift).0.mode == VimMode::Normal,
        key_step(s, Key::D, shift).0.op == VimOperation::Idle,
        key_step(s, Key::D, shift).1,
{
    let t = s.text;
    assert forall|i: int| 0 <= i < t.len() implies t[i] != '\n' by {
        if t[i] == '\n' {
            assert(t.contains('\n'));
        }
    }
    lemma_line_start_of_run(t, 0, s.cursor);
    lemma_line_end_of_run(t, s.cursor, t.len() as int);
    assert(t.subrange(0, t.len() as int) =~= t);
    let nt = splice(t, 0, t.len() as int, Seq::empty());
    assert(nt.len() == 0);
}

/// `dd` on a document of one line without terminator empties the document and
/// leaves the cursor at 0.
pub proof fn delete_only_line(s: EditorState, shift1: bool, shift2: bool)
    requires
        s.inv(),
        s.mode == VimMode::Normal,
        s.op == VimOperation::Idle,
        !s.text.contains('\n'),
    ensures
        key_step(key_step(s, Key::D, shift1).0, Key::D, shift2).0.text.len() == 0,
        key_step(key_step(s, Key::D, shift1).0, Key::D, shift2).0.cursor == 0,
{
    let s1 = key_step(s, Key::D, shift1).0;
    second_d_on_only_line(s1, shift2);
}

/// `yy` then `p` on a line with a terminator puts a copy of the line right
/// below it; the paste leaves the register as the yank set it.
pub proof fn yank_line_then_paste(s: EditorState, shift1: bool, shift2: bool)
    requires
        s.inv(),
        s.mode == VimMode::Normal,
        s.op == VimOperation::Idle,
        line_end(s.text, s.cursor) < s.text.len(),
    ensures
        ({
            let t = s.text;
            let le = line_end(t, s.cursor) + 1;
            let line = t.subrange(line_start(t, s.cursor), le);
            let s2 = key_step(key_step(s, Key::Y, shift1).0, Key::Y, shift2).0;
            let s3 = key_step(s2, Key::P, false).0;
            &&& s2.text == t
            &&& s2.register == line
            &&& s3.text == t.take(le) + line + t.skip(le)
            &&& s3.register == s2.register
        }),
{
    let t = s.text;
    lemma_line_start_bounds(t, s.cursor);
    lemma_line_end_bounds(t, s.cursor);
    let ls = line_start(t, s.cursor);
    let le = line_end(t, s.cursor) + 1;
    let line = t.subrange(ls, le);
    assert(line[le - 1 - ls] == '\n');
    assert(line.contains('\n'));
    let s2 = key_step(key_step(s, Key::Y, shift1).0, Key::Y, shift2).0;
    assert(s2.register == line);
    assert(le == line_span_end(t, s.cursor));
}

/// `w` with the cursor at the end of the document is consumed and leaves the
/// whole state as it was: document, cursor, desired column, mode and register.
pub proof fn word_forward_at_end(s: EditorState, shift: bool)
    requires
        s.inv(),
        s.mode == VimMode::Normal,
        s.op == VimOperation::Idle,
        s.cursor == s.text.len(),
    ensures
        key_step(s, Key::W, shift).0 == s,
        key_step(s, Key::W, shift).1,
        key_step(s, Key::W, shift).2 is None,
{
    lemma_word_forward(s.text, s.cursor);
}

} // verus!
