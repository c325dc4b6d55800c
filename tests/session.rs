use hexhog::{Action, App, AppState, Args, Change, Key, KeyPress, Modifiers, NibbleInput};

fn session(data: Vec<u8>) -> App {
    App::new(Args { file: String::from("test.bin") }, data)
}

fn press(app: &mut App, key: Key) -> Action {
    app.on_key_event(KeyPress { key, modifiers: Modifiers::Plain })
}

fn press_shift(app: &mut App, key: Key) -> Action {
    app.on_key_event(KeyPress { key, modifiers: Modifiers::Shift })
}

fn is_insert(c: &Change, at: usize, bytes: &[u8]) -> bool {
    match c {
        Change::Insert(o, b) => *o == at && b.as_slice() == bytes,
        _ => false,
    }
}

#[test]
fn yank_and_paste_at_append_slot() {
    let mut app = session(vec![0x41, 0x42, 0x43]);
    press(&mut app, Key::Char('v'));
    press(&mut app, Key::Right);
    assert_eq!(app.selection_range(), (0, 1));
    assert_eq!(app.get_selection_data(), vec![0x41, 0x42]);
    press(&mut app, Key::Char('y'));
    assert_eq!(app.clipboard, vec![0x41, 0x42]);
    assert!(!app.is_selecting);
    app.set_idx(3);
    press(&mut app, Key::Char('p'));
    assert_eq!(app.data, vec![0x41, 0x42, 0x43, 0x41, 0x42]);
    assert_eq!(app.changes.len(), 1);
    assert!(is_insert(&app.changes[0], 3, &[0x41, 0x42]));
    assert!(app.is_selecting);
    assert_eq!(app.selection_start, 3);
    assert_eq!(app.get_idx(), 4);
    press(&mut app, Key::Char('u'));
    assert_eq!(app.data, vec![0x41, 0x42, 0x43]);
}

#[test]
fn insert_then_undo_and_redo() {
    let mut app = session(vec![]);
    app.do_change(Change::Insert(0, vec![0xFF]));
    assert_eq!(app.data, vec![0xFF]);
    app.undo();
    assert_eq!(app.data, Vec::<u8>::new());
    app.redo();
    assert_eq!(app.data, vec![0xFF]);
}

#[test]
fn insert_mode_keys_undo_and_redo() {
    let mut app = session(vec![]);
    press(&mut app, Key::Char('i'));
    assert_eq!(app.state, AppState::Edit);
    press(&mut app, Key::Char('f'));
    assert_eq!(app.buffer, NibbleInput::OneDigit(15));
    press(&mut app, Key::Char('F'));
    assert_eq!(app.data, vec![0xFF]);
    assert_eq!(app.state, AppState::Move);
    assert_eq!(app.buffer, NibbleInput::Empty);
    assert_eq!(app.get_idx(), 1);
    press(&mut app, Key::Char('u'));
    assert_eq!(app.data, Vec::<u8>::new());
    press_shift(&mut app, Key::Char('U'));
    assert_eq!(app.data, vec![0xFF]);
}

#[test]
fn append_by_overwrite_is_not_undoable() {
    let mut app = session(vec![0x00]);
    press(&mut app, Key::Char('1'));
    press(&mut app, Key::Char('0'));
    assert_eq!(app.data, vec![0x10]);
    assert_eq!(app.get_idx(), 1);
    press(&mut app, Key::Char('2'));
    press(&mut app, Key::Char('0'));
    assert_eq!(app.data, vec![0x10, 0x20]);
    assert_eq!(app.changes.len(), 1);
    app.undo();
    assert_eq!(app.data, vec![0x00, 0x20]);
}

#[test]
fn apply_then_undo_as_often_restores() {
    let start = vec![1u8, 2, 3, 4, 5];
    let mut app = session(start.clone());
    app.do_change(Change::Insert(2, vec![9, 9]));
    app.do_change(Change::Edit(0, vec![1, 2], vec![7, 8]));
    app.do_change(Change::Delete(3, vec![9, 3]));
    app.do_change(Change::Insert(5, vec![6]));
    assert_eq!(app.data, vec![7, 8, 9, 4, 5, 6]);
    for _ in 0..4 {
        app.undo();
    }
    assert_eq!(app.data, start);
    assert!(app.changes.is_empty());
    assert_eq!(app.made_changes.len(), 4);
}

#[test]
fn undo_then_redo_is_identity() {
    let mut app = session(vec![1, 2, 3]);
    app.do_change(Change::Delete(0, vec![1, 2]));
    let before = app.data.clone();
    app.undo();
    assert_eq!(app.data, vec![1, 2, 3]);
    app.redo();
    assert_eq!(app.data, before);
    assert_eq!(app.changes.len(), 1);
}

#[test]
fn new_change_after_undo_clears_redo() {
    let mut app = session(vec![1, 2, 3]);
    app.do_change(Change::Edit(0, vec![1], vec![5]));
    app.undo();
    assert_eq!(app.made_changes.len(), 1);
    app.do_change(Change::Edit(1, vec![2], vec![6]));
    assert!(app.made_changes.is_empty());
    let before = app.data.clone();
    app.redo();
    assert_eq!(app.data, before);
    assert_eq!(app.data, vec![1, 6, 3]);
}

#[test]
fn redo_discards_older_undone_changes() {
    let mut app = session(vec![1, 2]);
    app.do_change(Change::Insert(0, vec![3]));
    app.do_change(Change::Insert(0, vec![4]));
    app.undo();
    app.undo();
    assert_eq!(app.made_changes.len(), 2);
    app.redo();
    assert_eq!(app.data, vec![3, 1, 2]);
    assert!(app.made_changes.is_empty());
    app.redo();
    assert_eq!(app.data, vec![3, 1, 2]);
}

#[test]
fn undo_and_redo_on_empty_history_do_nothing() {
    let mut app = session(vec![1]);
    app.undo();
    app.redo();
    assert_eq!(app.data, vec![1]);
}

#[test]
fn moves_clamp_at_both_ends() {
    let mut app = session(vec![0; 20]);
    app.move_left();
    assert_eq!(app.get_idx(), 0);
    app.move_up();
    assert_eq!(app.get_idx(), 0);
    app.set_idx(20);
    app.move_right();
    assert_eq!(app.get_idx(), 20);
    app.move_down();
    assert_eq!(app.get_idx(), 20);
    app.set_idx(10);
    app.move_down();
    assert_eq!(app.get_idx(), 20);
    app.move_up();
    assert_eq!(app.get_idx(), 4);
    app.set_idx(15);
    app.move_right();
    assert_eq!((app.cursor_y, app.cursor_x), (1, 0));
    app.move_left();
    assert_eq!((app.cursor_y, app.cursor_x), (0, 15));
}

#[test]
fn page_moves_step_by_visible_rows() {
    let mut app = session(vec![0; 100]);
    app.frame_height = 2;
    app.move_page_down();
    assert_eq!(app.get_idx(), 32);
    app.move_page_down();
    assert_eq!(app.get_idx(), 64);
    app.move_page_down();
    assert_eq!(app.get_idx(), 96);
    app.move_page_down();
    assert_eq!(app.get_idx(), 100);
    app.move_page_up();
    assert_eq!(app.get_idx(), 68);
    app.set_idx(20);
    app.move_page_up();
    assert_eq!(app.get_idx(), 0);
}

#[test]
fn delete_past_end_removes_what_is_there() {
    let mut app = session(vec![1, 2, 3, 4]);
    app.delete_data(2, 10);
    assert_eq!(app.data, vec![1, 2]);
    app.delete_data(5, 1);
    assert_eq!(app.data, vec![1, 2]);
    app.delete_data(0, 1);
    assert_eq!(app.data, vec![2]);
}

#[test]
fn delete_pulls_cursor_back() {
    let mut app = session(vec![1, 2, 3, 4]);
    app.set_idx(4);
    app.delete_data(0, 3);
    assert_eq!(app.get_idx(), 1);
}

#[test]
fn replace_overwrites_and_appends() {
    let mut app = session(vec![1, 2, 3]);
    app.replace_data(1, &vec![8, 9, 10]);
    assert_eq!(app.data, vec![1, 8, 9, 10]);
    app.replace_data(7, &vec![5]);
    assert_eq!(app.data, vec![1, 8, 9, 10, 5]);
}

#[test]
fn insert_shifts_and_appends_past_end() {
    let mut app = session(vec![1, 2, 3]);
    app.insert_data(1, &vec![8, 9]);
    assert_eq!(app.data, vec![1, 8, 9, 2, 3]);
    app.insert_data(9, &vec![7]);
    assert_eq!(app.data, vec![1, 8, 9, 2, 3, 7]);
}

#[test]
fn selection_stays_inside_buffer() {
    let mut app = session(vec![1, 2, 3]);
    app.set_idx(3);
    app.toggle_selection();
    assert_eq!(app.selection_range(), (2, 2));
    app.move_left();
    app.move_left();
    assert_eq!(app.selection_range(), (1, 2));
    assert_eq!(app.get_selection_data(), vec![2, 3]);
    app.selection_start = 50;
    let (lo, hi) = app.selection_range();
    assert!(lo <= hi && hi <= 2);
}

#[test]
fn selection_on_empty_buffer() {
    let mut app = session(vec![]);
    app.toggle_selection();
    assert_eq!(app.selection_range(), (0, 0));
    assert_eq!(app.get_selection_data(), Vec::<u8>::new());
    app.is_selecting = false;
    assert_eq!(app.selection_range(), (0, 0));
    assert_eq!(app.get_selection_data(), Vec::<u8>::new());
}

#[test]
fn backspace_deletes_selection() {
    let mut app = session(vec![1, 2, 3, 4, 5]);
    app.set_idx(1);
    press(&mut app, Key::Char('v'));
    press(&mut app, Key::Right);
    press(&mut app, Key::Right);
    press(&mut app, Key::Backspace);
    assert_eq!(app.data, vec![1, 5]);
    assert_eq!(app.get_idx(), 1);
    match &app.changes[0] {
        Change::Delete(o, b) => {
            assert_eq!(*o, 1);
            assert_eq!(b, &vec![2, 3, 4]);
        }
        _ => panic!("expected a delete"),
    }
    app.undo();
    assert_eq!(app.data, vec![1, 2, 3, 4, 5]);
}

#[test]
fn backspace_on_last_byte_keeps_cursor_on_a_byte() {
    let mut app = session(vec![1, 2]);
    app.set_idx(1);
    press(&mut app, Key::Backspace);
    assert_eq!(app.data, vec![1]);
    assert_eq!(app.get_idx(), 0);
    press(&mut app, Key::Backspace);
    assert_eq!(app.data, Vec::<u8>::new());
    assert_eq!(app.get_idx(), 0);
}

#[test]
fn backspace_on_append_slot_moves_left() {
    let mut app = session(vec![1, 2]);
    app.set_idx(2);
    press(&mut app, Key::Backspace);
    assert_eq!(app.data, vec![1, 2]);
    assert_eq!(app.get_idx(), 1);
    assert!(app.changes.is_empty());
}

#[test]
fn escape_discards_pending_digit() {
    let mut app = session(vec![1]);
    press(&mut app, Key::Char('a'));
    assert_eq!(app.state, AppState::Edit);
    assert_eq!(app.buffer, NibbleInput::OneDigit(10));
    press(&mut app, Key::Esc);
    assert_eq!(app.state, AppState::Move);
    assert_eq!(app.buffer, NibbleInput::Empty);
    assert_eq!(app.data, vec![1]);
    assert!(app.changes.is_empty());
}

#[test]
fn non_digit_while_editing_is_ignored() {
    let mut app = session(vec![1]);
    press(&mut app, Key::Char('4'));
    press(&mut app, Key::Char('z'));
    assert_eq!(app.buffer, NibbleInput::OneDigit(4));
    press(&mut app, Key::Char('B'));
    assert_eq!(app.data, vec![0x4B]);
    match &app.changes[0] {
        Change::Edit(o, old, new) => {
            assert_eq!(*o, 0);
            assert_eq!(old, &vec![1]);
            assert_eq!(new, &vec![0x4B]);
        }
        _ => panic!("expected an edit"),
    }
}

#[test]
fn nibble_buffer_holds_two_digits() {
    let mut app = session(vec![]);
    app.insert_to_buffer('x');
    assert_eq!(app.buffer, NibbleInput::Empty);
    app.insert_to_buffer('c');
    app.insert_to_buffer('3');
    assert_eq!(app.buffer, NibbleInput::Complete(0xC3));
    assert_eq!(app.buffer_to_u8(), 0xC3);
    app.insert_to_buffer('1');
    assert_eq!(app.buffer, NibbleInput::Complete(0xC3));
}

#[test]
fn save_quit_and_help_keys() {
    let mut app = session(vec![1]);
    assert_eq!(press(&mut app, Key::Char('s')), Action::Save);
    assert_eq!(press(&mut app, Key::Char('S')), Action::Save);
    assert_eq!(press(&mut app, Key::Char('h')), Action::Nothing);
    assert_eq!(app.state, AppState::Help);
    press(&mut app, Key::Down);
    assert_eq!(app.state, AppState::Move);
    assert_eq!(app.get_idx(), 0);
    assert!(app.running);
    press(&mut app, Key::Char('q'));
    assert!(!app.running);
}

#[test]
fn shifted_digit_does_not_start_an_edit() {
    let mut app = session(vec![1]);
    press_shift(&mut app, Key::Char('A'));
    assert_eq!(app.state, AppState::Move);
    assert_eq!(app.buffer, NibbleInput::Empty);
}

#[test]
fn scrolling_keeps_cursor_away_from_edges() {
    let mut app = session(vec![0; 16 * 100]);
    app.frame_height = 20;
    app.set_idx(16 * 30);
    app.set_startingline();
    assert_eq!(app.starting_line, 16);
    app.set_idx(16 * 22);
    app.set_startingline();
    assert_eq!(app.starting_line, 16);
    app.set_idx(16 * 18);
    app.set_startingline();
    assert_eq!(app.starting_line, 13);
    app.set_idx(16 * 3);
    app.set_startingline();
    assert_eq!(app.starting_line, 0);
}
