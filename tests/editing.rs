use todo_app::app::{App, InputMode, Key, State};
use todo_app::text::{byte_offset, insert_char, remove_char_before, utf8_width, MAX_CHARS};
use todo_app::timer::Timer;

fn editing_app() -> App {
    let mut app = App::new();
    app.handle_key(Key::Char('n'), true);
    app
}

#[test]
fn cursor_stays_in_bounds() {
    let mut app = editing_app();
    app.move_cursor_left();
    assert_eq!(app.cursor_index, 0);
    app.move_cursor_right();
    assert_eq!(app.cursor_index, 0);
    app.enter_char('a');
    app.enter_char('b');
    for _ in 0..5 {
        app.move_cursor_right();
    }
    assert_eq!(app.cursor_index, 2);
    for _ in 0..5 {
        app.move_cursor_left();
    }
    assert_eq!(app.cursor_index, 0);
}

#[test]
fn insert_then_left_restores_cursor() {
    let mut app = editing_app();
    app.enter_char('a');
    app.enter_char('c');
    app.move_cursor_left();
    let before = app.cursor_index;
    app.enter_char('b');
    assert_eq!(app.input, "abc");
    app.move_cursor_left();
    assert_eq!(app.cursor_index, before);
}

#[test]
fn multibyte_insert_uses_byte_offsets() {
    let mut app = editing_app();
    app.enter_char('é');
    app.enter_char('ü');
    assert_eq!(app.byte_index(), 4);
    app.move_cursor_left();
    assert_eq!(app.byte_index(), 2);
    app.enter_char('→');
    assert_eq!(app.input, "é→ü");
    assert_eq!(app.cursor_index, 2);
    assert_eq!(app.byte_index(), 5);
    app.delete_char();
    assert_eq!(app.input, "éü");
    assert_eq!(app.cursor_index, 1);
}

#[test]
fn delete_at_start_is_noop() {
    let mut app = editing_app();
    app.enter_char('x');
    app.move_cursor_left();
    app.delete_char();
    assert_eq!(app.input, "x");
    assert_eq!(app.cursor_index, 0);
}

#[test]
fn delete_removes_before_cursor() {
    let mut app = editing_app();
    for c in "abc".chars() {
        app.enter_char(c);
    }
    app.move_cursor_left();
    app.delete_char();
    assert_eq!(app.input, "ac");
    assert_eq!(app.cursor_index, 1);
}

#[test]
fn full_buffer_rejects_insert() {
    let mut app = editing_app();
    for _ in 0..MAX_CHARS {
        app.enter_char('z');
    }
    assert_eq!(app.input.chars().count(), 180);
    app.enter_char('y');
    assert_eq!(app.input.chars().count(), 180);
    assert!(!app.input.contains('y'));
    app.move_cursor_left();
    app.move_cursor_left();
    app.enter_char('y');
    assert_eq!(app.input.chars().count(), 180);
    assert_eq!(app.cursor_index, 178);
}

#[test]
fn escape_discards_new_title() {
    let mut app = editing_app();
    app.enter_char('q');
    app.handle_key(Key::Esc, true);
    assert_eq!(app.input_mode, InputMode::Visual);
    assert_eq!(app.input, "");
    assert_eq!(app.cursor_index, 0);
}

#[test]
fn release_events_are_ignored_while_typing() {
    let mut app = editing_app();
    app.handle_key(Key::Char('a'), false);
    assert_eq!(app.input, "");
    app.handle_key(Key::Char('a'), true);
    assert_eq!(app.input, "a");
}

#[test]
fn keys_outside_text_modes_do_not_edit() {
    let mut app = App::new();
    app.enter_char('a');
    app.move_cursor_right();
    assert_eq!(app.input, "");
    assert_eq!(app.cursor_index, 0);
    assert_eq!(app.byte_index(), 0);
    assert_eq!(app.clamp_cursor(7), 0);
}

#[test]
fn navigation_on_empty_store_stays_browsing() {
    let mut app = App::new();
    app.handle_key(Key::Down, true);
    assert_eq!(app.input_mode, InputMode::Visual);
    app.next_todo();
    app.previous_todo();
    assert_eq!(app.selected, None);
}

fn app_with(n: usize) -> App {
    let mut app = App::new();
    for i in 0..n {
        app.handle_key(Key::Char('n'), true);
        app.handle_key(Key::Char((b'a' + i as u8) as char), true);
        app.handle_key(Key::Enter, true);
    }
    app
}

#[test]
fn selection_wraps_both_ways() {
    let mut app = app_with(3);
    app.previous_todo();
    assert_eq!(app.selected, Some(0));
    app.previous_todo();
    assert_eq!(app.selected, Some(2));
    app.next_todo();
    assert_eq!(app.selected, Some(0));
    app.next_todo();
    app.next_todo();
    app.next_todo();
    assert_eq!(app.selected, Some(0));
    assert_eq!(app.todo_list_index, 0);
}

#[test]
fn clamp_todo_list_index_bounds() {
    let app = app_with(3);
    assert_eq!(app.clamp_todo_list_index(7), 2);
    assert_eq!(app.clamp_todo_list_index(1), 1);
    let empty = App::new();
    assert_eq!(empty.clamp_todo_list_index(4), 0);
}

#[test]
fn delete_everything_unsets_selection() {
    let mut app = app_with(1);
    app.handle_key(Key::Down, true);
    app.handle_key(Key::Down, true);
    assert_eq!(app.selected, Some(0));
    app.handle_key(Key::Char('d'), true);
    assert_eq!(app.todo_list.len(), 0);
    assert_eq!(app.selected, None);
    assert_eq!(app.todo_list_index, 0);
}

#[test]
fn detail_edit_sets_body() {
    let mut app = app_with(1);
    app.handle_key(Key::Down, true);
    app.handle_key(Key::Enter, true);
    assert_eq!(app.input_mode, InputMode::Popup);
    assert!(app.show_todo_popup);
    app.handle_key(Key::Char('i'), true);
    assert_eq!(app.input_mode, InputMode::PopupInput);
    for c in "note".chars() {
        app.handle_key(Key::Char(c), true);
    }
    app.handle_key(Key::Enter, true);
    assert_eq!(app.input_mode, InputMode::Select);
    assert!(!app.show_todo_popup);
    assert_eq!(app.popup_input, "");
    assert_eq!(app.todo_list.get_todo(0).unwrap().body(), Some("note"));
}

#[test]
fn detail_escape_discards_edit() {
    let mut app = app_with(1);
    app.handle_key(Key::Down, true);
    app.handle_key(Key::Enter, true);
    app.handle_key(Key::Char('i'), true);
    app.handle_key(Key::Char('z'), true);
    app.handle_key(Key::Esc, true);
    assert_eq!(app.input_mode, InputMode::Popup);
    assert_eq!(app.popup_input, "");
    assert_eq!(app.todo_list.get_todo(0).unwrap().body(), None);
    app.handle_key(Key::Esc, true);
    assert_eq!(app.input_mode, InputMode::Select);
    app.handle_key(Key::Char('q'), true);
    assert_eq!(app.input_mode, InputMode::Visual);
}

#[test]
fn quit_from_browsing() {
    let mut app = App::new();
    assert!(!app.handle_key(Key::Char('x'), true));
    assert!(app.handle_key(Key::Char('q'), true));
    assert!(app.should_quit);
    assert_eq!(app.state, State::Exit);
}

#[test]
fn splash_ends_after_two_seconds() {
    let mut app = App::new();
    app.update_after(1_999_999_999);
    assert_eq!(app.state, State::Startup);
    app.update_after(2_000_000_000);
    assert_eq!(app.state, State::Display);
}

#[test]
fn timer_arithmetic() {
    let t = Timer::new(3);
    assert_eq!(t.duration_secs(), 3);
    assert!(!t.is_elapsed_after(3_000_000_000));
    assert!(t.is_elapsed_after(3_000_000_001));
    assert_eq!(t.remaining_after(1_000_000_000), 2_000_000_000);
    assert_eq!(t.remaining_after(5_000_000_000), 0);
    assert!(!t.is_elapsed());
    assert!(t.remaining() <= 3_000_000_000);
    let zero = Timer::new(0);
    assert!(zero.remaining() == 0);
}

#[test]
fn text_helpers() {
    assert_eq!(utf8_width('a'), 1);
    assert_eq!(utf8_width('é'), 2);
    assert_eq!(utf8_width('→'), 3);
    assert_eq!(utf8_width('😀'), 4);
    assert_eq!(byte_offset("a😀b", 2), 5);
    assert_eq!(byte_offset("a😀b", 9), 6);
    let mut s = String::from("ab");
    insert_char(&mut s, 1, '😀');
    assert_eq!(s, "a😀b");
    assert_eq!(remove_char_before("a😀b", 2), "ab");
}
