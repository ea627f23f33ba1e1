//! The editing engine: its state, what each input event does to it, and the
//! executable handlers proved to do exactly that.
use vstd::prelude::*;
use vstd::utf8::encode_utf8;
use crate::command::{command_action, parse_command, HostAction};
use crate::keys::{Key, Modifiers};
use crate::modes::{VimMode, VimOperation};
use crate::motion::{
    find_word_backward, find_word_flags, find_word_forward, inner_word, inner_word_span,
    lemma_inner_word, lemma_next_line_target, lemma_prev_line_target, lemma_word_backward,
    lemma_word_forward, next_line_target, prev_line_target, word_backward, word_flags,
    word_forward,
};
use crate::text::{
    chars_of, column_of, contains_break, copy_range, count_breaks_before, find_line_end,
    find_line_start, lemma_line_end_bounds, lemma_line_start_bounds, line_end, line_of,
    line_start, splice, splice_text, string_of,
};

verus! {

/// The state of the engine, as the contracts speak of it. Offsets and columns
/// count Unicode scalar values.
pub struct EditorState {
    /// The document.
    pub text: Seq<char>,
    /// The cursor, in `[0, text.len()]`.
    pub cursor: int,
    /// The column that vertical motions aim for.
    pub desired: int,
    pub mode: VimMode,
    /// The command line; it starts with `:` in Command mode and is empty otherwise.
    pub command: Seq<char>,
    /// The pending operator.
    pub op: VimOperation,
    /// Whether the pending operator waits for the key after its inner modifier.
    pub inner: bool,
    /// The register: the span that the last yank, delete or change took.
    pub register: Seq<char>,
    /// Whether the next text input is to be swallowed.
    pub suppress: bool,
}

impl EditorState {
    /// What every state of the engine satisfies.
    pub open spec fn inv(self) -> bool {
        &&& 0 <= self.cursor <= self.text.len()
        &&& 0 <= self.desired
        &&& self.mode == VimMode::Command ==> self.command.len() >= 1 && self.command[0] == ':'
        &&& self.mode != VimMode::Command ==> self.command.len() == 0
        &&& self.mode != VimMode::Normal ==> self.op == VimOperation::Idle
        &&& self.inner ==> (self.op == VimOperation::Delete || self.op == VimOperation::Change)
    }

    /// The zero-based column of the cursor.
    pub open spec fn column(self) -> int {
        column_of(self.text, self.cursor)
    }

    /// The cursor moved horizontally to `p`: the desired column follows it.
    pub open spec fn moved_to(self, p: int) -> EditorState {
        EditorState { cursor: p, desired: column_of(self.text, p), ..self }
    }

    /// The document replaced by `t`, with the cursor at `p` and the desired column
    /// following it.
    pub open spec fn edited(self, t: Seq<char>, p: int) -> EditorState {
        EditorState { text: t, cursor: p, desired: column_of(t, p), ..self }
    }

    /// No operator pending.
    pub open spec fn idle(self) -> EditorState {
        EditorState { op: VimOperation::Idle, inner: false, ..self }
    }

    pub open spec fn with_mode(self, m: VimMode) -> EditorState {
        EditorState { mode: m, ..self }
    }
}

/// The column that a vertical motion aims for.
pub open spec fn target_column(s: EditorState) -> int {
    if s.desired >= s.column() {
        s.desired
    } else {
        s.column()
    }
}

pub open spec fn move_left(s: EditorState) -> EditorState {
    if s.cursor > 0 {
        s.moved_to(s.cursor - 1)
    } else {
        s
    }
}

pub open spec fn move_right(s: EditorState) -> EditorState {
    if s.cursor < s.text.len() {
        s.moved_to(s.cursor + 1)
    } else {
        s
    }
}

/// A vertical motion keeps the desired column as it was.
pub open spec fn move_up(s: EditorState) -> EditorState {
    match prev_line_target(s.text, s.cursor, target_column(s)) {
        Some(q) => EditorState { cursor: q, ..s },
        None => s,
    }
}

pub open spec fn move_down(s: EditorState) -> EditorState {
    match next_line_target(s.text, s.cursor, target_column(s)) {
        Some(q) => EditorState { cursor: q, ..s },
        None => s,
    }
}

pub open spec fn move_word_forward(s: EditorState) -> EditorState {
    if s.cursor < s.text.len() {
        s.moved_to(word_forward(s.text, s.cursor))
    } else {
        s
    }
}

pub open spec fn move_word_backward(s: EditorState) -> EditorState {
    if s.cursor > 0 {
        s.moved_to(word_backward(s.text, s.cursor))
    } else {
        s
    }
}

pub open spec fn move_line_start(s: EditorState) -> EditorState {
    s.moved_to(line_start(s.text, s.cursor))
}

pub open spec fn move_line_end(s: EditorState) -> EditorState {
    s.moved_to(line_end(s.text, s.cursor))
}

/// End of the line-wise span of the line that holds `p`: just past its
/// terminator, or the length when it has none.
pub open spec fn line_span_end(t: Seq<char>, p: int) -> int {
    if line_end(t, p) < t.len() {
        line_end(t, p) + 1
    } else {
        t.len() as int
    }
}

/// `[a, b)` taken into the register and out of the document, the cursor at `a`.
pub open spec fn cut(s: EditorState, a: int, b: int) -> EditorState {
    EditorState {
        register: s.text.subrange(a, b),
        ..s.edited(splice(s.text, a, b, Seq::empty()), a)
    }.idle()
}

/// `dd`: the line with its terminator leaves the document and goes to the
/// register. A last line without terminator takes the terminator before it
/// along. The cursor goes to the start of the line at the old line's offset,
/// or at the end when that is gone.
pub open spec fn delete_line(s: EditorState) -> EditorState {
    let t = s.text;
    let ls = line_start(t, s.cursor);
    let le = line_span_end(t, s.cursor);
    let a = if line_end(t, s.cursor) < t.len() || ls == 0 {
        ls
    } else {
        ls - 1
    };
    let nt = splice(t, a, le, Seq::empty());
    let p = if ls <= nt.len() {
        ls
    } else {
        nt.len() as int
    };
    EditorState { register: t.subrange(ls, le), ..s.edited(nt, line_start(nt, p)) }.idle()
}

/// `yy`: the line with its terminator goes to the register.
pub open spec fn yank_line(s: EditorState) -> EditorState {
    EditorState {
        register: s.text.subrange(
            line_start(s.text, s.cursor),
            line_span_end(s.text, s.cursor),
        ),
        ..s
    }.idle()
}

/// `cc`: the content of the line goes to the register, the line stays, and
/// Insert mode begins at its start.
pub open spec fn change_line(s: EditorState) -> EditorState {
    cut(s, line_start(s.text, s.cursor), line_end(s.text, s.cursor)).with_mode(VimMode::Insert)
}

/// The pending operator applied to `[a, b)`.
pub open spec fn apply_operator(s: EditorState, a: int, b: int) -> EditorState {
    if s.op == VimOperation::Yank {
        EditorState { register: s.text.subrange(a, b), ..s }.idle()
    } else if s.op == VimOperation::Change {
        cut(s, a, b).with_mode(VimMode::Insert)
    } else {
        cut(s, a, b)
    }
}

/// The operator on the span from the cursor to the start of the next word.
pub open spec fn word_operator(s: EditorState) -> EditorState {
    apply_operator(s, s.cursor, word_forward(s.text, s.cursor))
}

/// The operator on the inner word at the cursor.
pub open spec fn inner_word_operator(s: EditorState) -> EditorState {
    let span = inner_word(word_flags(s.text), s.cursor);
    apply_operator(s, span.0, span.1)
}

/// The operator on the current line.
pub open spec fn line_operator(s: EditorState) -> EditorState {
    if s.op == VimOperation::Delete {
        delete_line(s)
    } else if s.op == VimOperation::Yank {
        yank_line(s)
    } else {
        change_line(s)
    }
}

/// The key that, pressed after operator `op`, applies it to the whole line.
pub open spec fn doubles(op: VimOperation, key: Key) -> bool {
    ||| op == VimOperation::Delete && key == Key::D
    ||| op == VimOperation::Yank && key == Key::Y
    ||| op == VimOperation::Change && key == Key::C
}

/// Where the register goes: line-wise content below the current line (above it
/// with shift), other content after the cursor (at it with shift).
pub open spec fn paste_position(s: EditorState, above: bool) -> int {
    if s.register.contains('\n') {
        if above {
            line_start(s.text, s.cursor)
        } else {
            line_span_end(s.text, s.cursor)
        }
    } else if above || s.cursor >= s.text.len() {
        s.cursor
    } else {
        s.cursor + 1
    }
}

/// `p` and `P`: the register inserted, the cursor just past it.
pub open spec fn paste(s: EditorState, above: bool) -> EditorState {
    if s.register.len() == 0 {
        s
    } else {
        let p = paste_position(s, above);
        s.edited(splice(s.text, p, p, s.register), p + s.register.len())
    }
}

/// `x`: the scalar at the cursor leaves the document.
pub open spec fn delete_at_cursor(s: EditorState) -> EditorState {
    if s.cursor < s.text.len() {
        s.edited(splice(s.text, s.cursor, s.cursor + 1, Seq::empty()), s.cursor)
    } else {
        s
    }
}

/// `o` and `O`: an empty line below (above) the current one, and Insert mode on it.
pub open spec fn open_line(s: EditorState, above: bool) -> EditorState {
    if above {
        let p = line_start(s.text, s.cursor);
        s.edited(splice(s.text, p, p, seq!['\n']), p).with_mode(VimMode::Insert)
    } else {
        let p = line_end(s.text, s.cursor);
        s.edited(splice(s.text, p, p, seq!['\n']), p + 1).with_mode(VimMode::Insert)
    }
}

/// A Normal-mode key with no operator pending: the next state, and whether the
/// key was consumed.
pub open spec fn plain_normal_step(s: EditorState, key: Key, shift: bool) -> (EditorState, bool) {
    match key {
        Key::D => (EditorState { op: VimOperation::Delete, inner: false, ..s }, true),
        Key::Y => (EditorState { op: VimOperation::Yank, inner: false, ..s }, true),
        Key::C => (EditorState { op: VimOperation::Change, inner: false, ..s }, true),
        Key::P => (paste(s, shift), true),
        Key::H | Key::ArrowLeft => (move_left(s), true),
        Key::L | Key::ArrowRight => (move_right(s), true),
        Key::K | Key::ArrowUp => (move_up(s), true),
        Key::J | Key::ArrowDown => (move_down(s), true),
        Key::W => (move_word_forward(s), true),
        Key::B => (move_word_backward(s), true),
        Key::Num0 => (move_line_start(s), true),
        Key::Num4 => (move_line_end(s), true),
        Key::I => (
            if shift {
                move_line_start(s)
            } else {
                s
            }.with_mode(VimMode::Insert),
            true,
        ),
        Key::A => (
            if shift {
                move_line_end(s)
            } else {
                move_right(s)
            }.with_mode(VimMode::Insert),
            true,
        ),
        Key::X => (delete_at_cursor(s), true),
        Key::O => (open_line(s, shift), true),
        _ => if key == Key::Num9 && shift {
            (EditorState { mode: VimMode::Command, command: seq![':'], ..s }, true)
        } else {
            (EditorState { desired: s.column(), ..s }, false)
        },
    }
}

/// A Normal-mode key: with an operator pending, the key completes it, extends
/// it with the inner modifier, or abandons it and is then handled as a plain key.
pub open spec fn normal_step(s: EditorState, key: Key, shift: bool) -> (EditorState, bool) {
    if s.op == VimOperation::Idle {
        plain_normal_step(s, key, shift)
    } else if s.inner {
        if key == Key::W {
            (inner_word_operator(s), true)
        } else {
            plain_normal_step(s.idle(), key, shift)
        }
    } else if doubles(s.op, key) {
        (line_operator(s), true)
    } else if key == Key::W {
        (word_operator(s), true)
    } else if key == Key::I && s.op != VimOperation::Yank {
        (EditorState { inner: true, ..s }, true)
    } else {
        plain_normal_step(s.idle(), key, shift)
    }
}

/// `c` inserted at the cursor, the cursor just past it.
pub open spec fn insert_char(s: EditorState, c: char) -> EditorState {
    s.edited(splice(s.text, s.cursor, s.cursor, seq![c]), s.cursor + 1)
}

/// An Insert-mode key: the next state, and whether the key was consumed.
pub open spec fn insert_step(s: EditorState, key: Key) -> (EditorState, bool) {
    match key {
        Key::Escape => (
            if s.cursor > 0 {
                s.moved_to(s.cursor - 1)
            } else {
                s
            }.with_mode(VimMode::Normal),
            true,
        ),
        Key::Enter => (insert_char(s, '\n'), true),
        Key::Backspace => (
            if s.cursor > 0 {
                s.edited(splice(s.text, s.cursor - 1, s.cursor, Seq::empty()), s.cursor - 1)
            } else {
                s
            },
            true,
        ),
        Key::Delete => (delete_at_cursor(s), true),
        Key::ArrowLeft => (move_left(s), true),
        Key::ArrowRight => (move_right(s), true),
        Key::ArrowUp => (move_up(s), true),
        Key::ArrowDown => (move_down(s), true),
        Key::Home => (move_line_start(s), true),
        Key::End => (move_line_end(s), true),
        _ => (EditorState { desired: s.column(), ..s }, false),
    }
}

/// A Command-mode key: the next state, whether the key was consumed, and the
/// action for the host.
pub open spec fn command_step(s: EditorState, key: Key) -> (EditorState, bool, Option<HostAction>) {
    match key {
        Key::Escape => (
            EditorState { mode: VimMode::Normal, command: Seq::empty(), ..s },
            true,
            None,
        ),
        Key::Enter => (
            EditorState { mode: VimMode::Normal, command: Seq::empty(), ..s },
            true,
            command_action(s.command),
        ),
        Key::Backspace => (
            if s.command.len() > 1 {
                EditorState { command: s.command.drop_last(), ..s }
            } else {
                s
            },
            true,
            None,
        ),
        _ => (s, false, None),
    }
}

/// A key event: the next state, whether the key was consumed, and the action
/// for the host.
pub open spec fn key_step(s: EditorState, key: Key, shift: bool) -> (
    EditorState,
    bool,
    Option<HostAction>,
) {
    match s.mode {
        VimMode::Normal => {
            let r = normal_step(s, key, shift);
            (r.0, r.1, None)
        },
        VimMode::Insert => {
            let r = insert_step(s, key);
            (r.0, r.1, None)
        },
        VimMode::Command => command_step(s, key),
    }
}

/// A text-input event. A pending suppression swallows it. In Insert mode a
/// printable scalar, a line terminator or a tab goes into the document; in
/// Command mode a printable scalar goes onto the command line.
pub open spec fn text_step(s: EditorState, c: char) -> EditorState {
    if s.suppress {
        EditorState { suppress: false, ..s }
    } else if s.mode == VimMode::Insert && (c >= ' ' || c == '\n' || c == '\t') {
        insert_char(s, c)
    } else if s.mode == VimMode::Command && c >= ' ' {
        EditorState { command: s.command.push(c), ..s }
    } else {
        s
    }
}

/// The state of a fresh engine: an empty document, Normal mode, nothing pending,
/// an empty register.
pub open spec fn initial_state() -> EditorState {
    EditorState {
        text: Seq::empty(),
        cursor: 0,
        desired: 0,
        mode: VimMode::Normal,
        command: Seq::empty(),
        op: VimOperation::Idle,
        inner: false,
        register: Seq::empty(),
        suppress: false,
    }
}

/// The label that the host shows for the mode: the pending operator's letter in
/// Normal mode, the live command line in Command mode.
pub open spec fn mode_display(s: EditorState) -> Seq<char> {
    match s.mode {
        VimMode::Normal => match s.op {
            VimOperation::Delete => "NORMAL (d)"@,
            VimOperation::Yank => "NORMAL (y)"@,
            VimOperation::Change => "NORMAL (c)"@,
            VimOperation::Idle => "NORMAL"@,
        },
        VimMode::Insert => "INSERT"@,
        VimMode::Command => s.command,
    }
}

/// A modal, vi-style editor over one document.
pub struct SimpleEditor {
    text: Vec<char>,
    cursor_position: usize,
    cursor_line: usize,
    cursor_column: usize,
    desired_column: usize,
    vim_mode: VimMode,
    command_buffer: Vec<char>,
    current_operation: VimOperation,
    expecting_inner: bool,
    register_buffer: Vec<char>,
    suppress_next_text: bool,
}

impl View for SimpleEditor {
    type V = EditorState;

    closed spec fn view(&self) -> EditorState {
        EditorState {
            text: self.text@,
            cursor: self.cursor_position as int,
            desired: self.desired_column as int,
            mode: self.vim_mode,
            command: self.command_buffer@,
            op: self.current_operation,
            inner: self.expecting_inner,
            register: self.register_buffer@,
            suppress: self.suppress_next_text,
        }
    }
}

impl SimpleEditor {
    /// The state invariant, and the cached line and column of the cursor.
    pub closed spec fn wf(&self) -> bool {
        &&& self@.inv()
        &&& self.cursor_line == line_of(self.text@, self.cursor_position as int)
        &&& self.cursor_column == column_of(self.text@, self.cursor_position as int)
    }

    pub proof fn lemma_wf(&self)
        requires
            self.wf(),
        ensures
            self@.inv(),
    {
    }

    pub fn new() -> (r: Self)
        ensures
            r.wf(),
            r@ == initial_state(),
    {
        let r = SimpleEditor {
            text: Vec::new(),
            cursor_position: 0,
            cursor_line: 0,
            cursor_column: 0,
            desired_column: 0,
            vim_mode: VimMode::Normal,
            command_buffer: Vec::new(),
            current_operation: VimOperation::Idle,
            expecting_inner: false,
            register_buffer: Vec::new(),
            suppress_next_text: false,
        };
        assert(r.text@.take(0) =~= Seq::<char>::empty());
        assert(r@ =~= initial_state());
        r
    }

    /// Recomputes the line and column of the cursor from its offset.
    pub fn update_cursor_line_column(&mut self)
        requires
            old(self)@.inv(),
        ensures
            final(self).wf(),
            final(self)@ == old(self)@,
    {
        let ls = find_line_start(&self.text, self.cursor_position);
        self.cursor_line = count_breaks_before(&self.text, self.cursor_position);
        self.cursor_column = self.cursor_position - ls;
    }

    /// Moves the cursor horizontally to `p`; the desired column follows.
    fn move_horizontal(&mut self, p: usize)
        requires
            old(self).wf(),
            p <= old(self)@.text.len(),
        ensures
            final(self).wf(),
            final(self)@ == old(self)@.moved_to(p as int),
    {
        self.cursor_position = p;
        self.update_cursor_line_column();
        self.desired_column = self.cursor_column;
    }

    /// Moves the cursor vertically to `p`; the desired column stays.
    fn move_vertical(&mut self, p: usize)
        requires
            old(self).wf(),
            p <= old(self)@.text.len(),
        ensures
            final(self).wf(),
            final(self)@ == (EditorState { cursor: p as int, ..old(self)@ }),
    {
        self.cursor_position = p;
        self.update_cursor_line_column();
    }

    /// Replaces the document by `t` and puts the cursor at `p`.
    fn set_text(&mut self, t: Vec<char>, p: usize)
        requires
            old(self).wf(),
            p <= t@.len(),
        ensures
            final(self).wf(),
            final(self)@ == old(self)@.edited(t@, p as int),
    {
        self.text = t;
        self.cursor_position = p;
        self.update_cursor_line_column();
        self.desired_column = self.cursor_column;
    }

    /// Takes `[a, b)` into the register and out of the document.
    fn cut_range(&mut self, a: usize, b: usize)
        requires
            old(self).wf(),
            a <= b <= old(self)@.text.len(),
        ensures
            final(self).wf(),
            final(self)@ == cut(old(self)@, a as int, b as int),
    {
        let taken = copy_range(&self.text, a, b);
        let empty: Vec<char> = Vec::new();
        let t = splice_text(&self.text, a, b, &empty);
        self.set_text(t, a);
        self.register_buffer = taken;
        self.current_operation = VimOperation::Idle;
        self.expecting_inner = false;
    }

    /// Where a move to the next line lands.
    fn find_position_on_next_line(&self) -> (r: Option<usize>)
        requires
            self.wf(),
        ensures
            match r {
                Some(q) => next_line_target(self@.text, self@.cursor, target_column(self@))
                    == Some(q as int),
                None => next_line_target(self@.text, self@.cursor, target_column(self@)) is None,
            },
    {
        proof {
            lemma_line_start_bounds(self.text@, self.cursor_position as int);
        }
        let target = if self.desired_column >= self.cursor_column {
            self.desired_column
        } else {
            self.cursor_column
        };
        let e = find_line_end(&self.text, self.cursor_position);
        if e >= self.text.len() {
            return None;
        }
        let s = e + 1;
        let e2 = find_line_end(&self.text, s);
        let len = e2 - s;
        Some(s + if target < len { target } else { len })
    }

    /// Where a move to the previous line lands.
    fn find_position_on_previous_line(&self) -> (r: Option<usize>)
        requires
            self.wf(),
        ensures
            match r {
                Some(q) => prev_line_target(self@.text, self@.cursor, target_column(self@))
                    == Some(q as int),
                None => prev_line_target(self@.text, self@.cursor, target_column(self@)) is None,
            },
    {
        proof {
            lemma_line_start_bounds(self.text@, self.cursor_position as int);
        }
        let target = if self.desired_column >= self.cursor_column {
            self.desired_column
        } else {
            self.cursor_column
        };
        let s = find_line_start(&self.text, self.cursor_position);
        if s == 0 {
            return None;
        }
        let ps = find_line_start(&self.text, s - 1);
        let len = (s - 1) - ps;
        Some(ps + if target < len { target } else { len })
    }

    fn move_up(&mut self)
        requires
            old(self).wf(),
        ensures
            final(self).wf(),
            final(self)@ == move_up(old(self)@),
    {
        proof {
            lemma_prev_line_target(self.text@, self.cursor_position as int, target_column(self@));
        }
        if let Some(p) = self.find_position_on_previous_line() {
            self.move_vertical(p);
        }
    }

    fn move_down(&mut self)
        requires
            old(self).wf(),
        ensures
            final(self).wf(),
            final(self)@ == move_down(old(self)@),
    {
        proof {
            lemma_next_line_target(self.text@, self.cursor_position as int, target_column(self@));
        }
        if let Some(p) = self.find_position_on_next_line() {
            self.move_vertical(p);
        }
    }

    fn move_left(&mut self)
        requires
            old(self).wf(),
        ensures
            final(self).wf(),
            final(self)@ == move_left(old(self)@),
    {
        if self.cursor_position > 0 {
            self.move_horizontal(self.cursor_position - 1);
        }
    }

    fn move_right(&mut self)
        requires
            old(self).wf(),
        ensures
            final(self).wf(),
            final(self)@ == move_right(old(self)@),
    {
        if self.cursor_position < self.text.len() {
            self.move_horizontal(self.cursor_position + 1);
        }
    }

    fn move_line_start(&mut self)
        requires
            old(self).wf(),
        ensures
            final(self).wf(),
            final(self)@ == move_line_start(old(self)@),
    {
        let p = find_line_start(&self.text, self.cursor_position);
        self.move_horizontal(p);
    }

    fn move_line_end(&mut self)
        requires
            old(self).wf(),
        ensures
            final(self).wf(),
            final(self)@ == move_line_end(old(self)@),
    {
        let p = find_line_end(&self.text, self.cursor_position);
        self.move_horizontal(p);
    }

    fn delete_at_cursor(&mut self)
        requires
            old(self).wf(),
        ensures
            final(self).wf(),
            final(self)@ == delete_at_cursor(old(self)@),
    {
        if self.cursor_position < self.text.len() {
            let empty: Vec<char> = Vec::new();
            let t = splice_text(&self.text, self.cursor_position, self.cursor_position + 1, &empty);
            self.set_text(t, self.cursor_position);
        }
    }

    /// Inserts `c` at the cursor and moves past it.
    fn insert_at_cursor(&mut self, c: char)
        requires
            old(self).wf(),
        ensures
            final(self).wf(),
            final(self)@ == insert_char(old(self)@, c),
    {
        let ins: Vec<char> = vec![c];
        assert(ins@ =~= seq![c]);
        let t = splice_text(&self.text, self.cursor_position, self.cursor_position, &ins);
        let n = t.len();
        assert(n == self.cursor_position + (n - self.cursor_position));
        self.set_text(t, self.cursor_position + 1);
    }

    /// Applies the pending operator to `[a, b)`.
    fn apply_operator(&mut self, a: usize, b: usize)
        requires
            old(self).wf(),
            old(self)@.mode == VimMode::Normal,
            a <= b <= old(self)@.text.len(),
        ensures
            final(self).wf(),
            final(self)@ == apply_operator(old(self)@, a as int, b as int),
    {
        match self.current_operation {
            VimOperation::Yank => {
                self.register_buffer = copy_range(&self.text, a, b);
                self.current_operation = VimOperation::Idle;
                self.expecting_inner = false;
            },
            VimOperation::Change => {
                self.cut_range(a, b);
                self.vim_mode = VimMode::Insert;
            },
            _ => {
                self.cut_range(a, b);
            },
        }
    }

    /// The inner-word span at `pos`: the run of word scalars that holds it, or
    /// the single scalar there when it is not a word scalar.
    pub fn find_word_boundaries(&self, pos: usize) -> (r: (usize, usize))
        requires
            self.wf(),
            pos <= self@.text.len(),
        ensures
            r.0 == inner_word(word_flags(self@.text), pos as int).0,
            r.1 == inner_word(word_flags(self@.text), pos as int).1,
    {
        let flags = find_word_flags(&self.text);
        inner_word_span(&flags, pos)
    }

    fn word_operator(&mut self)
        requires
            old(self).wf(),
            old(self)@.mode == VimMode::Normal,
        ensures
            final(self).wf(),
            final(self)@ == word_operator(old(self)@),
    {
        let c = self.cursor_position;
        let e = find_word_forward(&self.text, c);
        proof {
            lemma_word_forward(self.text@, c as int);
        }
        self.apply_operator(c, e);
    }

    fn inner_word_operator(&mut self)
        requires
            old(self).wf(),
            old(self)@.mode == VimMode::Normal,
        ensures
            final(self).wf(),
            final(self)@ == inner_word_operator(old(self)@),
    {
        let span = self.find_word_boundaries(self.cursor_position);
        proof {
            lemma_inner_word(word_flags(self.text@), self.cursor_position as int);
        }
        self.apply_operator(span.0, span.1);
    }

    fn delete_line(&mut self)
        requires
            old(self).wf(),
        ensures
            final(self).wf(),
            final(self)@ == delete_line(old(self)@),
    {
        let c = self.cursor_position;
        proof {
            lemma_line_start_bounds(self.text@, c as int);
            lemma_line_end_bounds(self.text@, c as int);
        }
        let ls = find_line_start(&self.text, c);
        let e = find_line_end(&self.text, c);
        let le = if e < self.text.len() { e + 1 } else { self.text.len() };
        let a = if e < self.text.len() || ls == 0 { ls } else { ls - 1 };
        let taken = copy_range(&self.text, ls, le);
        let empty: Vec<char> = Vec::new();
        let t = splice_text(&self.text, a, le, &empty);
        let p = if ls <= t.len() { ls } else { t.len() };
        let q = find_line_start(&t, p);
        self.set_text(t, q);
        self.register_buffer = taken;
        self.current_operation = VimOperation::Idle;
        self.expecting_inner = false;
    }

    fn yank_line(&mut self)
        requires
            old(self).wf(),
        ensures
            final(self).wf(),
            final(self)@ == yank_line(old(self)@),
    {
        let c = self.cursor_position;
        proof {
            lemma_line_start_bounds(self.text@, c as int);
            lemma_line_end_bounds(self.text@, c as int);
        }
        let ls = find_line_start(&self.text, c);
        let e = find_line_end(&self.text, c);
        let le = if e < self.text.len() { e + 1 } else { self.text.len() };
        self.register_buffer = copy_range(&self.text, ls, le);
        self.current_operation = VimOperation::Idle;
        self.expecting_inner = false;
    }

    fn change_line(&mut self)
        requires
            old(self).wf(),
            old(self)@.mode == VimMode::Normal,
        ensures
            final(self).wf(),
            final(self)@ == change_line(old(self)@),
    {
        let c = self.cursor_position;
        proof {
            lemma_line_start_bounds(self.text@, c as int);
            lemma_line_end_bounds(self.text@, c as int);
        }
        let ls = find_line_start(&self.text, c);
        let e = find_line_end(&self.text, c);
        self.cut_range(ls, e);
        self.vim_mode = VimMode::Insert;
    }

    fn line_operator(&mut self)
        requires
            old(self).wf(),
            old(self)@.mode == VimMode::Normal,
        ensures
            final(self).wf(),
            final(self)@ == line_operator(old(self)@),
    {
        match self.current_operation {
            VimOperation::Delete => self.delete_line(),
            VimOperation::Yank => self.yank_line(),
            _ => self.change_line(),
        }
    }

    fn paste(&mut self, above: bool)
        requires
            old(self).wf(),
        ensures
            final(self).wf(),
            final(self)@ == paste(old(self)@, above),
    {
        if self.register_buffer.len() == 0 {
            return;
        }
        let c = self.cursor_position;
        proof {
            lemma_line_start_bounds(self.text@, c as int);
            lemma_line_end_bounds(self.text@, c as int);
        }
        let p = if contains_break(&self.register_buffer) {
            if above {
                find_line_start(&self.text, c)
            } else {
                let e = find_line_end(&self.text, c);
                if e < self.text.len() { e + 1 } else { self.text.len() }
            }
        } else if above || c >= self.text.len() {
            c
        } else {
            c + 1
        };
        let t = splice_text(&self.text, p, p, &self.register_buffer);
        let n = t.len();
        let q = p + self.register_buffer.len();
        self.set_text(t, q);
    }

    fn open_line(&mut self, above: bool)
        requires
            old(self).wf(),
            old(self)@.mode == VimMode::Normal,
            old(self)@.op == VimOperation::Idle,
        ensures
            final(self).wf(),
            final(self)@ == open_line(old(self)@, above),
    {
        let ins: Vec<char> = vec!['\n'];
        assert(ins@ =~= seq!['\n']);
        if above {
            let p = find_line_start(&self.text, self.cursor_position);
            let t = splice_text(&self.text, p, p, &ins);
            self.set_text(t, p);
        } else {
            let p = find_line_end(&self.text, self.cursor_position);
            let t = splice_text(&self.text, p, p, &ins);
            let n = t.len();
            self.set_text(t, p + 1);
        }
        self.vim_mode = VimMode::Insert;
    }

    /// A Normal-mode key with no operator pending.
    fn handle_plain_normal_key(&mut self, key: Key, shift: bool) -> (r: bool)
        requires
            old(self).wf(),
            old(self)@.mode == VimMode::Normal,
            old(self)@.op == VimOperation::Idle,
        ensures
            final(self).wf(),
            (final(self)@, r) == plain_normal_step(old(self)@, key, shift),
    {
        match key {
            Key::D => {
                self.current_operation = VimOperation::Delete;
                self.expecting_inner = false;
            },
            Key::Y => {
                self.current_operation = VimOperation::Yank;
                self.expecting_inner = false;
            },
            Key::C => {
                self.current_operation = VimOperation::Change;
                self.expecting_inner = false;
            },
            Key::P => self.paste(shift),
            Key::H | Key::ArrowLeft => self.move_left(),
            Key::L | Key::ArrowRight => self.move_right(),
            Key::K | Key::ArrowUp => self.move_up(),
            Key::J | Key::ArrowDown => self.move_down(),
            Key::W => {
                if self.cursor_position < self.text.len() {
                    let p = find_word_forward(&self.text, self.cursor_position);
                    proof {
                        lemma_word_forward(self.text@, self.cursor_position as int);
                    }
                    self.move_horizontal(p);
                }
            },
            Key::B => {
                if self.cursor_position > 0 {
                    let p = find_word_backward(&self.text, self.cursor_position);
                    proof {
                        lemma_word_backward(self.text@, self.cursor_position as int);
                    }
                    self.move_horizontal(p);
                }
            },
            Key::Num0 => self.move_line_start(),
            Key::Num4 => self.move_line_end(),
            Key::I => {
                if shift {
                    self.move_line_start();
                }
                self.vim_mode = VimMode::Insert;
            },
            Key::A => {
                if shift {
                    self.move_line_end();
                } else {
                    self.move_right();
                }
                self.vim_mode = VimMode::Insert;
            },
            Key::X => self.delete_at_cursor(),
            Key::O => self.open_line(shift),
            _ => {
                if key == Key::Num9 && shift {
                    self.vim_mode = VimMode::Command;
                    self.command_buffer = vec![':'];
                    assert(self.command_buffer@ =~= seq![':']);
                } else {
                    self.desired_column = self.cursor_column;
                    return false;
                }
            },
        }
        true
    }

    fn handle_normal_mode_key(&mut self, key: Key, shift: bool) -> (r: bool)
        requires
            old(self).wf(),
            old(self)@.mode == VimMode::Normal,
        ensures
            final(self).wf(),
            (final(self)@, r) == normal_step(old(self)@, key, shift),
    {
        if self.current_operation != VimOperation::Idle {
            if self.expecting_inner {
                if key == Key::W {
                    self.inner_word_operator();
                    return true;
                }
            } else if (self.current_operation == VimOperation::Delete && key == Key::D) || (
            self.current_operation == VimOperation::Yank && key == Key::Y) || (
            self.current_operation == VimOperation::Change && key == Key::C) {
                self.line_operator();
                return true;
            } else if key == Key::W {
                self.word_operator();
                return true;
            } else if key == Key::I && self.current_operation != VimOperation::Yank {
                self.expecting_inner = true;
                return true;
            }
            self.current_operation = VimOperation::Idle;
            self.expecting_inner = false;
        }
        self.handle_plain_normal_key(key, shift)
    }

    fn handle_insert_mode_key(&mut self, key: Key) -> (r: bool)
        requires
            old(self).wf(),
            old(self)@.mode == VimMode::Insert,
        ensures
            final(self).wf(),
            (final(self)@, r) == insert_step(old(self)@, key),
    {
        match key {
            Key::Escape => {
                if self.cursor_position > 0 {
                    self.move_horizontal(self.cursor_position - 1);
                }
                self.vim_mode = VimMode::Normal;
            },
            Key::Enter => self.insert_at_cursor('\n'),
            Key::Backspace => {
                if self.cursor_position > 0 {
                    let empty: Vec<char> = Vec::new();
                    let t = splice_text(&self.text, self.cursor_position - 1, self.cursor_position, &empty);
                    self.set_text(t, self.cursor_position - 1);
                }
            },
            Key::Delete => self.delete_at_cursor(),
            Key::ArrowLeft => self.move_left(),
            Key::ArrowRight => self.move_right(),
            Key::ArrowUp => self.move_up(),
            Key::ArrowDown => self.move_down(),
            Key::Home => self.move_line_start(),
            Key::End => self.move_line_end(),
            _ => {
                self.desired_column = self.cursor_column;
                return false;
            },
        }
        true
    }

    /// The action that the command line names.
    fn execute_command(&self) -> (r: Option<HostAction>)
        ensures
            r == command_action(self@.command),
    {
        parse_command(&self.command_buffer)
    }

    fn handle_command_mode_key(&mut self, key: Key) -> (r: (bool, Option<HostAction>))
        requires
            old(self).wf(),
            old(self)@.mode == VimMode::Command,
        ensures
            final(self).wf(),
            (final(self)@, r.0, r.1) == command_step(old(self)@, key),
    {
        match key {
            Key::Escape => {
                self.vim_mode = VimMode::Normal;
                self.command_buffer = Vec::new();
                (true, None)
            },
            Key::Enter => {
                let action = self.execute_command();
                self.vim_mode = VimMode::Normal;
                self.command_buffer = Vec::new();
                (true, action)
            },
            Key::Backspace => {
                if self.command_buffer.len() > 1 {
                    self.command_buffer.pop();
                }
                (true, None)
            },
            _ => (false, None),
        }
    }

    /// Handles one key event: whether the key was consumed, and the action that
    /// the host is to take.
    pub fn handle_key_press(&mut self, key: Key, modifiers: &Modifiers) -> (r: (
        bool,
        Option<HostAction>,
    ))
        requires
            old(self).wf(),
        ensures
            final(self).wf(),
            (final(self)@, r.0, r.1) == key_step(old(self)@, key, modifiers.shift),
    {
        match self.vim_mode {
            VimMode::Normal => (self.handle_normal_mode_key(key, modifiers.shift), None),
            VimMode::Insert => (self.handle_insert_mode_key(key), None),
            VimMode::Command => self.handle_command_mode_key(key),
        }
    }

    /// Handles one scalar of a text-input event.
    pub fn handle_text_input(&mut self, c: char)
        requires
            old(self).wf(),
        ensures
            final(self).wf(),
            final(self)@ == text_step(old(self)@, c),
    {
        if self.suppress_next_text {
            self.suppress_next_text = false;
            return;
        }
        match self.vim_mode {
            VimMode::Insert => {
                if c >= ' ' || c == '\n' || c == '\t' {
                    self.insert_at_cursor(c);
                }
            },
            VimMode::Command => {
                if c >= ' ' {
                    self.command_buffer.push(c);
                }
            },
            VimMode::Normal => {},
        }
    }

    /// The label of the current mode, for display.
    pub fn get_mode_display(&self) -> (r: String)
        ensures
            r@ == mode_display(self@),
    {
        match self.vim_mode {
            VimMode::Normal => match self.current_operation {
                VimOperation::Delete => "NORMAL (d)".to_owned(),
                VimOperation::Yank => "NORMAL (y)".to_owned(),
                VimOperation::Change => "NORMAL (c)".to_owned(),
                VimOperation::Idle => "NORMAL".to_owned(),
            },
            VimMode::Insert => "INSERT".to_owned(),
            VimMode::Command => string_of(&self.command_buffer),
        }
    }

    /// The document.
    pub fn content(&self) -> (r: String)
        ensures
            r@ == self@.text,
    {
        string_of(&self.text)
    }

    /// The register.
    pub fn register(&self) -> (r: String)
        ensures
            r@ == self@.register,
    {
        string_of(&self.register_buffer)
    }

    /// The length of the document, in scalars.
    pub fn char_count(&self) -> (r: usize)
        ensures
            r == self@.text.len(),
    {
        self.text.len()
    }

    /// The scalar at offset `pos`, if there is one.
    pub fn char_at(&self, pos: usize) -> (r: Option<char>)
        ensures
            pos < self@.text.len() ==> r == Some(self@.text[pos as int]),
            pos >= self@.text.len() ==> r is None,
    {
        if pos >= self.text.len() {
            return None;
        }
        Some(self.text[pos])
    }

    /// The cursor, as an offset in scalars.
    pub fn cursor_position(&self) -> (r: usize)
        ensures
            r == self@.cursor,
    {
        self.cursor_position
    }

    /// The zero-based line of the cursor.
    pub fn cursor_line(&self) -> (r: usize)
        requires
            self.wf(),
        ensures
            r == line_of(self@.text, self@.cursor),
    {
        self.cursor_line
    }

    /// The zero-based column of the cursor, in scalars.
    pub fn cursor_column(&self) -> (r: usize)
        requires
            self.wf(),
        ensures
            r == self@.column(),
    {
        self.cursor_column
    }

    /// The column that vertical motions aim for.
    pub fn desired_column(&self) -> (r: usize)
        ensures
            r == self@.desired,
    {
        self.desired_column
    }

    pub fn vim_mode(&self) -> (r: VimMode)
        ensures
            r == self@.mode,
    {
        self.vim_mode
    }

    /// The pending operator.
    pub fn current_operation(&self) -> (r: VimOperation)
        ensures
            r == self@.op,
    {
        self.current_operation
    }

    /// The cursor as a byte offset into the UTF-8 encoding of the document.
    pub fn byte_position(&self) -> (r: usize)
        requires
            self.wf(),
        ensures
            r == encode_utf8(self@.text.take(self@.cursor)).len() as usize,
    {
        let prefix = copy_range(&self.text, 0, self.cursor_position);
        assert(prefix@ =~= self@.text.take(self@.cursor));
        let s = string_of(&prefix);
        s.as_str().len()
    }

    /// Loads a new document: the cursor goes to its start, the register stays.
    pub fn load_document(&mut self, content: &str)
        requires
            old(self).wf(),
        ensures
            final(self).wf(),
            final(self)@ == (EditorState { text: content@, cursor: 0, desired: 0, ..old(self)@ }),
    {
        self.text = chars_of(content);
        self.cursor_position = 0;
        self.desired_column = 0;
        self.update_cursor_line_column();
    }

    /// Puts the engine in `mode`, as the host does when it opens a note for
    /// editing. No operator stays pending; Command mode starts with `:`.
    pub fn set_mode(&mut self, mode: VimMode)
        requires
            old(self).wf(),
        ensures
            final(self).wf(),
            final(self)@ == (EditorState {
                mode,
                command: if mode == VimMode::Command {
                    seq![':']
                } else {
                    Seq::empty()
                },
                op: VimOperation::Idle,
                inner: false,
                ..old(self)@
            }),
    {
        self.vim_mode = mode;
        self.current_operation = VimOperation::Idle;
        self.expecting_inner = false;
        if mode == VimMode::Command {
            self.command_buffer = vec![':'];
            assert(self.command_buffer@ =~= seq![':']);
        } else {
            self.command_buffer = Vec::new();
        }
    }

    /// Puts the cursor at offset `pos`, or at the end of the document when `pos`
    /// lies past it.
    pub fn set_cursor_position(&mut self, pos: usize)
        requires
            old(self).wf(),
        ensures
            final(self).wf(),
            final(self)@ == old(self)@.moved_to(
                if pos <= old(self)@.text.len() {
                    pos as int
                } else {
                    old(self)@.text.len() as int
                },
            ),
    {
        let p = if pos <= self.text.len() { pos } else { self.text.len() };
        self.move_horizontal(p);
    }

    /// Makes the next text-input event a no-op: the host calls this when the key
    /// that opened the editor will also arrive as text.
    pub fn suppress_next_text_input(&mut self)
        requires
            old(self).wf(),
        ensures
            final(self).wf(),
            final(self)@ == (EditorState { suppress: true, ..old(self)@ }),
    {
        self.suppress_next_text = true;
    }
}

} // verus!
