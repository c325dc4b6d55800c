use hexhog::{App, Args, Cell, CellKind, Key, KeyPress, Modifiers};

fn session(data: Vec<u8>) -> App {
    App::new(Args { file: String::from("grid.bin") }, data)
}

fn kinds(cells: &[Cell]) -> Vec<CellKind> {
    cells.iter().map(|c| c.kind).collect()
}

#[test]
fn grid_shows_rows_up_to_append_slot() {
    let app = session((0u8..20).collect());
    let rows = app.grid(10);
    assert_eq!(rows.len(), 2);
    assert_eq!(rows[0].row, 0);
    assert_eq!(rows[0].cells.len(), 16);
    assert_eq!(rows[1].row, 1);
    assert_eq!(kinds(&rows[1].cells), vec![
        CellKind::Byte(16),
        CellKind::Byte(17),
        CellKind::Byte(18),
        CellKind::Byte(19),
    ]);
    assert!(rows[0].cells[0].cursor);
    assert!(!rows[0].cells[1].cursor);
}

#[test]
fn grid_height_limits_rows() {
    let app = session(vec![0; 100]);
    assert_eq!(app.grid(3).len(), 3);
    assert_eq!(app.grid(0).len(), 0);
}

#[test]
fn grid_shows_slot_under_cursor_at_end() {
    let mut app = session(vec![1, 2]);
    app.set_idx(2);
    let rows = app.grid(5);
    assert_eq!(rows.len(), 1);
    assert_eq!(kinds(&rows[0].cells), vec![CellKind::Byte(0), CellKind::Byte(1), CellKind::Slot]);
    let empty = session(vec![]);
    let rows = empty.grid(5);
    assert_eq!(rows.len(), 1);
    assert_eq!(kinds(&rows[0].cells), vec![CellKind::Slot]);
}

#[test]
fn grid_marks_selection() {
    let mut app = session(vec![1, 2, 3, 4]);
    app.set_idx(1);
    app.toggle_selection();
    app.move_right();
    app.move_right();
    let cells = &app.grid(1)[0].cells;
    assert!(!cells[0].highlighted && !cells[0].gap_highlighted);
    assert!(cells[1].highlighted && cells[1].gap_highlighted);
    assert!(cells[2].highlighted && cells[2].gap_highlighted);
    assert!(!cells[3].highlighted && cells[3].cursor && !cells[3].gap_highlighted);
}

#[test]
fn grid_shifts_bytes_after_pending_insert() {
    let mut app = session(vec![1, 2, 3]);
    app.set_idx(1);
    app.on_key_event(KeyPress { key: Key::Char('i'), modifiers: Modifiers::Plain });
    let cells = &app.grid(1)[0].cells;
    assert_eq!(kinds(cells), vec![
        CellKind::Byte(0),
        CellKind::Pending,
        CellKind::Byte(1),
        CellKind::Byte(2),
    ]);
    assert_eq!(cells[3].col, 3);
}

#[test]
fn grid_pending_overwrite_does_not_shift() {
    let mut app = session(vec![1, 2, 3]);
    app.set_idx(1);
    app.on_key_event(KeyPress { key: Key::Char('7'), modifiers: Modifiers::Plain });
    let cells = &app.grid(1)[0].cells;
    assert_eq!(kinds(cells), vec![CellKind::Byte(0), CellKind::Pending, CellKind::Byte(2)]);
}
