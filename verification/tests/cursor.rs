use putbackpeekmore::cursor::Cursor;

#[test]
fn a_cursor_starts_at_the_first_slot() {
    let cursor: Cursor<3> = Cursor::start();
    assert_eq!(cursor.get(), 0);
}

#[test]
fn a_cursor_moves_forward_and_back() {
    let mut cursor: Cursor<3> = Cursor::start();
    cursor.advance();
    assert_eq!(cursor.get(), 1);
    cursor.advance();
    cursor.advance();
    assert_eq!(cursor.get(), 3);
    cursor.retreat();
    assert_eq!(cursor.get(), 2);
    cursor.retreat();
    cursor.retreat();
    assert_eq!(cursor.get(), 0);
}

#[test]
fn a_cursor_is_set_to_any_slot_or_one_past_the_last() {
    let mut cursor: Cursor<4> = Cursor::start();
    cursor.set(4);
    assert_eq!(cursor.get(), 4);
    cursor.set(2);
    assert_eq!(cursor.get(), 2);
    cursor.set(0);
    assert_eq!(cursor.get(), 0);
}
