use rical::components::inputtext::{backspace, delete_word, handle_input, insert_char, InputMode};
use rical::keys::{key_pressed, KeyCode, KeyInfo, KeyModifiers};
use rical::state::TextInputState;

fn line(contents: &str, cursor_pos: usize) -> TextInputState {
    TextInputState { cursor_pos, contents: contents.to_string() }
}

fn plain(code: KeyCode) -> KeyInfo {
    KeyInfo { modifiers: KeyModifiers::Plain, code }
}

fn shift(code: KeyCode) -> KeyInfo {
    KeyInfo { modifiers: KeyModifiers::Shift, code }
}

fn control(code: KeyCode) -> KeyInfo {
    KeyInfo { modifiers: KeyModifiers::Control, code }
}

#[test]
fn key_pressed_wants_both_to_match() {
    let key = plain(KeyCode::Char('j'));
    assert!(key_pressed(&key, KeyModifiers::Plain, KeyCode::Char('j')));
    assert!(!key_pressed(&key, KeyModifiers::Plain, KeyCode::Char('k')));
    assert!(!key_pressed(&key, KeyModifiers::Control, KeyCode::Char('j')));
    assert!(!key_pressed(&key, KeyModifiers::Plain, KeyCode::Enter));
    assert!(key_pressed(&control(KeyCode::Char('m')), KeyModifiers::Control, KeyCode::Char('m')));
}

#[test]
fn new_lines_start_empty_or_at_the_end() {
    assert_eq!(TextInputState::new(), line("", 0));
    assert_eq!(TextInputState::from_contents("héllo".to_string()), line("héllo", 5));
    assert_eq!(TextInputState::from_contents(String::new()), line("", 0));
    assert_ne!(InputMode::Normal, InputMode::Password);
}

#[test]
fn characters_go_in_at_the_cursor() {
    assert_eq!(handle_input(&line("", 0), &plain(KeyCode::Char('a'))), line("a", 1));
    assert_eq!(handle_input(&line("ac", 1), &plain(KeyCode::Char('b'))), line("abc", 2));
    assert_eq!(handle_input(&line("ab", 2), &plain(KeyCode::Char('c'))), line("abc", 3));
    assert_eq!(handle_input(&line("bc", 0), &plain(KeyCode::Char('a'))), line("abc", 1));
    assert_eq!(handle_input(&line("né", 2), &plain(KeyCode::Char('e'))), line("née", 3));
    assert_eq!(insert_char(&line("ac", 1), 'b'), line("abc", 2));
}

#[test]
fn shift_puts_in_upper_case() {
    assert_eq!(handle_input(&line("", 0), &shift(KeyCode::Char('a'))), line("A", 1));
    assert_eq!(handle_input(&line("x", 1), &shift(KeyCode::Char('é'))), line("xÉ", 2));
    assert_eq!(handle_input(&line("x", 1), &shift(KeyCode::Char('A'))), line("xA", 2));
    assert_eq!(handle_input(&line("x", 1), &shift(KeyCode::Char('1'))), line("x1", 2));
    assert_eq!(handle_input(&line("x", 0), &shift(KeyCode::Char('ß'))), line("Sx", 1));
    assert_eq!(handle_input(&line("ab", 2), &shift(KeyCode::Backspace)), line("a", 1));
    assert_eq!(handle_input(&line("ab", 1), &shift(KeyCode::Left)), line("ab", 1));
}

#[test]
fn backspace_and_delete_take_one_character() {
    assert_eq!(handle_input(&line("abc", 3), &plain(KeyCode::Backspace)), line("ab", 2));
    assert_eq!(handle_input(&line("abc", 1), &plain(KeyCode::Backspace)), line("bc", 0));
    assert_eq!(handle_input(&line("abc", 0), &plain(KeyCode::Backspace)), line("abc", 0));
    assert_eq!(handle_input(&line("abc", 0), &plain(KeyCode::Delete)), line("bc", 0));
    assert_eq!(handle_input(&line("abc", 2), &plain(KeyCode::Delete)), line("ab", 2));
    assert_eq!(handle_input(&line("abc", 3), &plain(KeyCode::Delete)), line("abc", 3));
    assert_eq!(backspace(&line("abc", 2)), line("ac", 1));
}

#[test]
fn the_cursor_moves_inside_the_text() {
    assert_eq!(handle_input(&line("abc", 2), &plain(KeyCode::Left)), line("abc", 1));
    assert_eq!(handle_input(&line("abc", 0), &plain(KeyCode::Left)), line("abc", 0));
    assert_eq!(handle_input(&line("abc", 2), &plain(KeyCode::Right)), line("abc", 3));
    assert_eq!(handle_input(&line("abc", 3), &plain(KeyCode::Right)), line("abc", 3));
    assert_eq!(handle_input(&line("abc", 1), &plain(KeyCode::End)), line("abc", 3));
    assert_eq!(handle_input(&line("abc", 2), &plain(KeyCode::Home)), line("abc", 0));
}

#[test]
fn other_keys_leave_the_line() {
    let start = line("abc", 1);
    for key in [
        plain(KeyCode::Enter),
        plain(KeyCode::Esc),
        plain(KeyCode::Tab),
        plain(KeyCode::Up),
        plain(KeyCode::Down),
        plain(KeyCode::Other),
        shift(KeyCode::Delete),
        control(KeyCode::Char('a')),
        control(KeyCode::Delete),
        KeyInfo { modifiers: KeyModifiers::Other, code: KeyCode::Char('a') },
        KeyInfo { modifiers: KeyModifiers::Other, code: KeyCode::Backspace },
    ] {
        assert_eq!(handle_input(&start, &key), start);
    }
}

#[test]
fn control_takes_out_a_word() {
    assert_eq!(handle_input(&line("abcd efg ", 9), &control(KeyCode::Backspace)), line("abcd ", 5));
    assert_eq!(handle_input(&line("abcd efg", 8), &control(KeyCode::Char('w'))), line("abcd ", 5));
    assert_eq!(handle_input(&line("abcd", 4), &control(KeyCode::Backspace)), line("", 0));
    assert_eq!(handle_input(&line("   ", 3), &control(KeyCode::Backspace)), line("", 0));
    assert_eq!(handle_input(&line("abcd", 0), &control(KeyCode::Backspace)), line("abcd", 0));
    assert_eq!(handle_input(&line("", 0), &control(KeyCode::Char('w'))), line("", 0));
    assert_eq!(delete_word(&line("one two  three", 14)), line("one two  ", 9));
}

#[test]
fn control_takes_out_the_word_under_the_cursor() {
    assert_eq!(delete_word(&line("abcd efg", 6)), line("abcd g", 4));
    assert_eq!(delete_word(&line("abcd efg", 4)), line("efg", 0));
    assert_eq!(delete_word(&line("ab cd ef", 3)), line("ab d ef", 2));
}

#[test]
fn control_counts_the_bytes_of_the_old_text() {
    assert_eq!(delete_word(&line("été", 3)), line("", 0));
    assert_eq!(delete_word(&line("a été", 5)), line("a ", 0));
    assert_eq!(delete_word(&line("été abc", 7)), line("été ", 2));
}
