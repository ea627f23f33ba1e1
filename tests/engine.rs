use vimnote::command::{parse_command, HostAction};
use vimnote::editor::SimpleEditor;
use vimnote::keys::{Key, Modifiers};
use vimnote::modes::{VimMode, VimOperation};
use vimnote::motion::{inner_word_span, is_whitespace, is_word_char};

fn plain() -> Modifiers {
    Modifiers { shift: false, ctrl: false, alt: false }
}

fn shifted() -> Modifiers {
    Modifiers { shift: true, ctrl: false, alt: false }
}

fn editor_with(text: &str, pos: usize) -> SimpleEditor {
    let mut ed = SimpleEditor::new();
    ed.load_document(text);
    ed.set_cursor_position(pos);
    ed
}

fn press(ed: &mut SimpleEditor, keys: &[Key]) {
    for k in keys {
        ed.handle_key_press(*k, &plain());
    }
}

#[test]
fn new_editor_is_empty_and_normal() {
    let ed = SimpleEditor::new();
    assert_eq!(ed.content(), "");
    assert_eq!(ed.cursor_position(), 0);
    assert_eq!(ed.vim_mode(), VimMode::Normal);
    assert_eq!(ed.current_operation(), VimOperation::Idle);
    assert_eq!(ed.get_mode_display(), "NORMAL");
    assert_eq!(ed.register(), "");
}

#[test]
fn escape_in_normal_mode_is_not_consumed_and_changes_nothing() {
    let mut ed = editor_with("abc\ndef", 5);
    let r = ed.handle_key_press(Key::Escape, &plain());
    assert_eq!(r, (false, None));
    assert_eq!(ed.content(), "abc\ndef");
    assert_eq!(ed.vim_mode(), VimMode::Normal);
    assert_eq!(ed.cursor_position(), 5);
}

#[test]
fn escape_abandons_pending_operator() {
    let mut ed = editor_with("abc", 1);
    press(&mut ed, &[Key::D]);
    assert_eq!(ed.get_mode_display(), "NORMAL (d)");
    let r = ed.handle_key_press(Key::Escape, &plain());
    assert_eq!(r, (false, None));
    assert_eq!(ed.current_operation(), VimOperation::Idle);
    assert_eq!(ed.content(), "abc");
}

#[test]
fn dd_on_single_line_empties_document() {
    let mut ed = editor_with("hello world", 4);
    press(&mut ed, &[Key::D, Key::D]);
    assert_eq!(ed.content(), "");
    assert_eq!(ed.cursor_position(), 0);
    assert_eq!(ed.register(), "hello world");
}

#[test]
fn dd_joins_following_line_up() {
    let mut ed = editor_with("one\ntwo\nthree", 5);
    press(&mut ed, &[Key::D, Key::D]);
    assert_eq!(ed.content(), "one\nthree");
    assert_eq!(ed.cursor_position(), 4);
    assert_eq!(ed.cursor_line(), 1);
    assert_eq!(ed.register(), "two\n");
}

#[test]
fn dd_on_last_line_takes_preceding_terminator() {
    let mut ed = editor_with("one\ntwo", 5);
    press(&mut ed, &[Key::D, Key::D]);
    assert_eq!(ed.content(), "one");
    assert_eq!(ed.cursor_position(), 0);
    assert_eq!(ed.register(), "two");
}

#[test]
fn yy_then_p_duplicates_line_below() {
    let mut ed = editor_with("one\ntwo\n", 1);
    press(&mut ed, &[Key::Y, Key::Y]);
    assert_eq!(ed.register(), "one\n");
    assert_eq!(ed.content(), "one\ntwo\n");
    press(&mut ed, &[Key::P]);
    assert_eq!(ed.content(), "one\none\ntwo\n");
    assert_eq!(ed.register(), "one\n");
    assert_eq!(ed.cursor_position(), 8);
}

#[test]
fn yy_then_shift_p_puts_line_above() {
    let mut ed = editor_with("one\ntwo\n", 5);
    press(&mut ed, &[Key::Y, Key::Y]);
    ed.handle_key_press(Key::P, &shifted());
    assert_eq!(ed.content(), "one\ntwo\ntwo\n");
    assert_eq!(ed.cursor_position(), 8);
}

#[test]
fn diw_on_word_removes_word() {
    let mut ed = editor_with("hello world", 0);
    press(&mut ed, &[Key::D, Key::I, Key::W]);
    assert_eq!(ed.content(), " world");
    assert_eq!(ed.register(), "hello");
    assert_eq!(ed.cursor_position(), 0);
}

#[test]
fn diw_on_space_removes_only_the_space() {
    let mut ed = editor_with("hello world", 5);
    press(&mut ed, &[Key::D, Key::I, Key::W]);
    assert_eq!(ed.content(), "helloworld");
    assert_eq!(ed.register(), " ");
    assert_eq!(ed.cursor_position(), 5);
}

#[test]
fn diw_inside_unicode_word() {
    let mut ed = editor_with("héllo wörld", 8);
    press(&mut ed, &[Key::D, Key::I, Key::W]);
    assert_eq!(ed.content(), "héllo ");
    assert_eq!(ed.register(), "wörld");
}

#[test]
fn ciw_changes_inner_word() {
    let mut ed = editor_with("foo_bar baz", 2);
    press(&mut ed, &[Key::C, Key::I, Key::W]);
    assert_eq!(ed.content(), " baz");
    assert_eq!(ed.vim_mode(), VimMode::Insert);
    ed.handle_text_input('x');
    assert_eq!(ed.content(), "x baz");
}

#[test]
fn vertical_motion_keeps_desired_column() {
    let mut ed = editor_with("abcdef\nab\n\nhello", 4);
    assert_eq!(ed.cursor_column(), 4);
    press(&mut ed, &[Key::J]);
    assert_eq!((ed.cursor_line(), ed.cursor_column()), (1, 2));
    press(&mut ed, &[Key::J]);
    assert_eq!((ed.cursor_line(), ed.cursor_column()), (2, 0));
    press(&mut ed, &[Key::K]);
    assert_eq!((ed.cursor_line(), ed.cursor_column()), (1, 2));
    press(&mut ed, &[Key::K]);
    assert_eq!((ed.cursor_line(), ed.cursor_column()), (0, 4));
    assert_eq!(ed.desired_column(), 4);
}

#[test]
fn down_reaches_empty_line_after_final_terminator() {
    let mut ed = editor_with("ab\n", 1);
    let r = ed.handle_key_press(Key::J, &plain());
    assert_eq!(r, (true, None));
    assert_eq!(ed.cursor_position(), 3);
    assert_eq!((ed.cursor_line(), ed.cursor_column()), (1, 0));
    let r = ed.handle_key_press(Key::J, &plain());
    assert_eq!(r, (true, None));
    assert_eq!(ed.cursor_position(), 3);
    ed.handle_key_press(Key::K, &plain());
    assert_eq!(ed.cursor_position(), 1);
}

#[test]
fn down_on_last_line_without_terminator_stays() {
    let mut ed = editor_with("ab\ncd", 4);
    ed.set_mode(VimMode::Insert);
    let r = ed.handle_key_press(Key::ArrowDown, &plain());
    assert_eq!(r, (true, None));
    assert_eq!(ed.cursor_position(), 4);
}

#[test]
fn command_q_then_enter_quits() {
    let mut ed = editor_with("text", 0);
    let r = ed.handle_key_press(Key::Num9, &shifted());
    assert_eq!(r, (true, None));
    assert_eq!(ed.vim_mode(), VimMode::Command);
    assert_eq!(ed.get_mode_display(), ":");
    ed.handle_text_input('q');
    assert_eq!(ed.get_mode_display(), ":q");
    let r = ed.handle_key_press(Key::Enter, &plain());
    assert_eq!(r, (true, Some(HostAction::Quit)));
    assert_eq!(ed.vim_mode(), VimMode::Normal);
    assert_eq!(ed.get_mode_display(), "NORMAL");
}

#[test]
fn command_vocabulary() {
    assert_eq!(parse_command(&vec![':', 'w']), Some(HostAction::Save));
    assert_eq!(parse_command(&vec![':', 'q']), Some(HostAction::Quit));
    assert_eq!(parse_command(&vec![':', 'w', 'q']), Some(HostAction::SaveQuit));
    assert_eq!(parse_command(&vec![':', 'x']), None);
    assert_eq!(parse_command(&vec![':']), None);
}

#[test]
fn command_backspace_keeps_colon_and_escape_discards() {
    let mut ed = editor_with("", 0);
    ed.handle_key_press(Key::Num9, &shifted());
    ed.handle_text_input('w');
    ed.handle_key_press(Key::Backspace, &plain());
    ed.handle_key_press(Key::Backspace, &plain());
    assert_eq!(ed.get_mode_display(), ":");
    ed.handle_text_input('w');
    let r = ed.handle_key_press(Key::Escape, &plain());
    assert_eq!(r, (true, None));
    assert_eq!(ed.vim_mode(), VimMode::Normal);
}

#[test]
fn command_wq_saves_and_quits() {
    let mut ed = editor_with("", 0);
    ed.handle_key_press(Key::Num9, &shifted());
    ed.handle_text_input('w');
    ed.handle_text_input('q');
    assert_eq!(ed.handle_key_press(Key::Enter, &plain()), (true, Some(HostAction::SaveQuit)));
}

#[test]
fn word_forward_at_end_is_consumed_and_stays() {
    let mut ed = editor_with("abc def", 7);
    let r = ed.handle_key_press(Key::W, &plain());
    assert_eq!(r, (true, None));
    assert_eq!(ed.cursor_position(), 7);
}

#[test]
fn word_motions() {
    let mut ed = editor_with("abc  def\tghi", 0);
    press(&mut ed, &[Key::W]);
    assert_eq!(ed.cursor_position(), 5);
    press(&mut ed, &[Key::W]);
    assert_eq!(ed.cursor_position(), 9);
    press(&mut ed, &[Key::W]);
    assert_eq!(ed.cursor_position(), 12);
    press(&mut ed, &[Key::B]);
    assert_eq!(ed.cursor_position(), 9);
    press(&mut ed, &[Key::B, Key::B]);
    assert_eq!(ed.cursor_position(), 0);
}

#[test]
fn dw_and_cw_and_yw() {
    let mut ed = editor_with("abc def ghi", 4);
    press(&mut ed, &[Key::Y, Key::W]);
    assert_eq!(ed.register(), "def ");
    assert_eq!(ed.content(), "abc def ghi");
    press(&mut ed, &[Key::D, Key::W]);
    assert_eq!(ed.content(), "abc ghi");
    assert_eq!(ed.cursor_position(), 4);
    press(&mut ed, &[Key::C, Key::W]);
    assert_eq!(ed.content(), "abc ");
    assert_eq!(ed.register(), "ghi");
    assert_eq!(ed.vim_mode(), VimMode::Insert);
}

#[test]
fn cc_clears_line_content_and_inserts() {
    let mut ed = editor_with("one\ntwo\nthree", 5);
    press(&mut ed, &[Key::C, Key::C]);
    assert_eq!(ed.content(), "one\n\nthree");
    assert_eq!(ed.cursor_position(), 4);
    assert_eq!(ed.register(), "two");
    assert_eq!(ed.vim_mode(), VimMode::Insert);
}

#[test]
fn unknown_key_after_operator_runs_as_plain_key() {
    let mut ed = editor_with("abc", 0);
    press(&mut ed, &[Key::D, Key::L]);
    assert_eq!(ed.current_operation(), VimOperation::Idle);
    assert_eq!(ed.cursor_position(), 1);
    assert_eq!(ed.content(), "abc");
}

#[test]
fn characterwise_paste_after_and_at_cursor() {
    let mut ed = editor_with("abc def", 0);
    press(&mut ed, &[Key::Y, Key::W]);
    press(&mut ed, &[Key::P]);
    assert_eq!(ed.content(), "aabc bc def");
    assert_eq!(ed.cursor_position(), 5);
    ed.handle_key_press(Key::P, &shifted());
    assert_eq!(ed.content(), "aabc abc bc def");
    assert_eq!(ed.cursor_position(), 9);
}

#[test]
fn paste_with_empty_register_is_noop() {
    let mut ed = editor_with("abc", 1);
    let r = ed.handle_key_press(Key::P, &plain());
    assert_eq!(r, (true, None));
    assert_eq!(ed.content(), "abc");
    assert_eq!(ed.cursor_position(), 1);
}

#[test]
fn x_deletes_under_cursor_and_clamps() {
    let mut ed = editor_with("ab", 1);
    press(&mut ed, &[Key::X]);
    assert_eq!(ed.content(), "a");
    assert_eq!(ed.cursor_position(), 1);
    press(&mut ed, &[Key::X]);
    assert_eq!(ed.content(), "a");
}

#[test]
fn line_start_and_end_keys() {
    let mut ed = editor_with("one\ntwo three\n", 6);
    press(&mut ed, &[Key::Num4]);
    assert_eq!(ed.cursor_position(), 13);
    press(&mut ed, &[Key::Num0]);
    assert_eq!(ed.cursor_position(), 4);
    assert_eq!(ed.cursor_column(), 0);
}

#[test]
fn open_line_below_and_above() {
    let mut ed = editor_with("one\ntwo", 1);
    press(&mut ed, &[Key::O]);
    assert_eq!(ed.content(), "one\n\ntwo");
    assert_eq!(ed.cursor_position(), 4);
    assert_eq!(ed.vim_mode(), VimMode::Insert);
    let mut ed = editor_with("one\ntwo", 5);
    ed.handle_key_press(Key::O, &shifted());
    assert_eq!(ed.content(), "one\n\ntwo");
    assert_eq!(ed.cursor_position(), 4);
}

#[test]
fn insert_mode_editing() {
    let mut ed = editor_with("ac", 1);
    press(&mut ed, &[Key::I]);
    assert_eq!(ed.get_mode_display(), "INSERT");
    ed.handle_text_input('b');
    assert_eq!(ed.content(), "abc");
    assert_eq!(ed.cursor_position(), 2);
    press(&mut ed, &[Key::Enter]);
    assert_eq!(ed.content(), "ab\nc");
    assert_eq!((ed.cursor_line(), ed.cursor_column()), (1, 0));
    press(&mut ed, &[Key::Backspace]);
    assert_eq!(ed.content(), "abc");
    press(&mut ed, &[Key::Delete]);
    assert_eq!(ed.content(), "ab");
    ed.handle_text_input('\u{7}');
    assert_eq!(ed.content(), "ab");
    press(&mut ed, &[Key::Escape]);
    assert_eq!(ed.vim_mode(), VimMode::Normal);
    assert_eq!(ed.cursor_position(), 1);
}

#[test]
fn append_keys() {
    let mut ed = editor_with("abc\ndef", 0);
    press(&mut ed, &[Key::A]);
    assert_eq!(ed.cursor_position(), 1);
    press(&mut ed, &[Key::Escape]);
    ed.handle_key_press(Key::A, &shifted());
    assert_eq!(ed.cursor_position(), 3);
    assert_eq!(ed.vim_mode(), VimMode::Insert);
}

#[test]
fn text_input_in_normal_mode_is_ignored() {
    let mut ed = editor_with("abc", 0);
    ed.handle_text_input('z');
    assert_eq!(ed.content(), "abc");
}

#[test]
fn suppressed_text_input_is_swallowed_once() {
    let mut ed = editor_with("abc", 0);
    ed.set_cursor_position(100);
    assert_eq!(ed.cursor_position(), 3);
    ed.set_mode(VimMode::Insert);
    ed.suppress_next_text_input();
    ed.handle_text_input('a');
    assert_eq!(ed.content(), "abc");
    ed.handle_text_input('d');
    assert_eq!(ed.content(), "abcd");
}

#[test]
fn load_document_resets_cursor_and_keeps_register() {
    let mut ed = editor_with("one two", 0);
    press(&mut ed, &[Key::Y, Key::W]);
    press(&mut ed, &[Key::W]);
    ed.load_document("x\ny");
    assert_eq!(ed.cursor_position(), 0);
    assert_eq!(ed.cursor_line(), 0);
    assert_eq!(ed.register(), "one ");
}

#[test]
fn byte_position_counts_utf8_bytes() {
    let ed = editor_with("hé€😀x", 4);
    assert_eq!(ed.byte_position(), 1 + 2 + 3 + 4);
    let ed = editor_with("abc", 2);
    assert_eq!(ed.byte_position(), 2);
}

#[test]
fn line_and_column_follow_cursor() {
    let ed = editor_with("a\nbc\ndéf", 7);
    assert_eq!(ed.cursor_line(), 2);
    assert_eq!(ed.cursor_column(), 2);
    assert_eq!(ed.char_at(6), Some('é'));
    assert_eq!(ed.char_at(9), None);
}

#[test]
fn find_word_boundaries_cases() {
    let ed = editor_with("ab_1 +x", 1);
    assert_eq!(ed.find_word_boundaries(1), (0, 4));
    assert_eq!(ed.find_word_boundaries(5), (5, 6));
    assert_eq!(ed.find_word_boundaries(7), (7, 7));
}

#[test]
fn inner_word_span_on_flags() {
    let w = vec![true, true, false, true, true, true];
    assert_eq!(inner_word_span(&w, 4), (3, 6));
    assert_eq!(inner_word_span(&w, 0), (0, 2));
    assert_eq!(inner_word_span(&w, 2), (2, 3));
    assert_eq!(inner_word_span(&w, 6), (6, 6));
}

#[test]
fn character_classes() {
    assert!(is_whitespace(' '));
    assert!(is_whitespace('\t'));
    assert!(is_whitespace('\u{3000}'));
    assert!(!is_whitespace('a'));
    for c in ['a', ' ', '\u{85}', '\u{2028}', 'Z', '_', '\u{200B}'] {
        assert_eq!(is_whitespace(c), c.is_whitespace());
    }
    assert!(is_word_char('é'));
    assert!(is_word_char('_'));
    assert!(is_word_char('7'));
    assert!(!is_word_char('-'));
}

#[test]
fn unhandled_keys_are_reported() {
    let mut ed = editor_with("abc", 0);
    assert_eq!(ed.handle_key_press(Key::Other, &plain()), (false, None));
    ed.set_mode(VimMode::Insert);
    assert_eq!(ed.handle_key_press(Key::W, &plain()), (false, None));
    ed.set_mode(VimMode::Command);
    assert_eq!(ed.get_mode_display(), ":");
    assert_eq!(ed.handle_key_press(Key::W, &plain()), (false, None));
}
