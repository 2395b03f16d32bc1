use latuicon::events::{key_action, mouse_action, Key, MouseInput, PickerAction};

#[test]
fn keys_that_leave() {
    assert_eq!(key_action(Key::Esc, false, false, 20), PickerAction::Quit);
    assert_eq!(key_action(Key::Char('c'), true, false, 20), PickerAction::Quit);
    assert_eq!(key_action(Key::Enter, false, false, 20), PickerAction::Confirm);
    assert_eq!(key_action(Key::Enter, true, false, 20), PickerAction::Ignore);
    assert_eq!(key_action(Key::Enter, false, true, 20), PickerAction::Ignore);
}

#[test]
fn keys_that_move_the_selection() {
    assert_eq!(key_action(Key::Up, false, false, 20), PickerAction::MoveSelection(-1));
    assert_eq!(key_action(Key::Char('k'), true, false, 20), PickerAction::MoveSelection(-1));
    assert_eq!(key_action(Key::Down, false, false, 20), PickerAction::MoveSelection(1));
    assert_eq!(key_action(Key::Char('j'), true, false, 20), PickerAction::MoveSelection(1));
    assert_eq!(key_action(Key::PageUp, false, false, 20), PickerAction::MoveSelection(-20));
    assert_eq!(key_action(Key::PageDown, false, false, 20), PickerAction::MoveSelection(20));
    assert_eq!(key_action(Key::Char('u'), true, false, 21), PickerAction::MoveSelection(-10));
    assert_eq!(key_action(Key::Char('d'), true, false, 21), PickerAction::MoveSelection(10));
    assert_eq!(key_action(Key::Char('d'), true, false, 1), PickerAction::MoveSelection(1));
    assert_eq!(key_action(Key::Char('u'), true, false, 0), PickerAction::MoveSelection(-1));
    assert_eq!(key_action(Key::PageDown, false, false, 0), PickerAction::MoveSelection(0));
}

#[test]
fn keys_that_edit_the_search() {
    assert_eq!(key_action(Key::Tab, false, false, 5), PickerAction::NextTab);
    assert_eq!(key_action(Key::BackTab, false, false, 5), PickerAction::PrevTab);
    assert_eq!(key_action(Key::Left, true, false, 5), PickerAction::CursorWordLeft);
    assert_eq!(key_action(Key::Right, false, true, 5), PickerAction::CursorWordRight);
    assert_eq!(key_action(Key::Left, false, false, 5), PickerAction::CursorLeft);
    assert_eq!(key_action(Key::Right, false, false, 5), PickerAction::CursorRight);
    assert_eq!(key_action(Key::Home, false, false, 5), PickerAction::CursorHome);
    assert_eq!(key_action(Key::End, false, false, 5), PickerAction::CursorEnd);
    assert_eq!(key_action(Key::Backspace, true, false, 5), PickerAction::DeleteWordLeft);
    assert_eq!(key_action(Key::Backspace, false, false, 5), PickerAction::DeleteChar);
    assert_eq!(key_action(Key::Delete, true, false, 5), PickerAction::DeleteWordRight);
    assert_eq!(key_action(Key::Delete, false, false, 5), PickerAction::DeleteNextChar);
    assert_eq!(key_action(Key::Char('w'), true, false, 5), PickerAction::DeleteWordLeft);
    assert_eq!(key_action(Key::Char('z'), true, false, 5), PickerAction::Undo);
    assert_eq!(key_action(Key::Char('a'), true, false, 5), PickerAction::EmacsInput('a'));
    assert_eq!(key_action(Key::Char('Y'), true, false, 5), PickerAction::Ignore);
    assert_eq!(key_action(Key::Char('x'), false, false, 5), PickerAction::InsertChar('x'));
    assert_eq!(key_action(Key::Char('😀'), false, false, 5), PickerAction::InsertChar('😀'));
    assert_eq!(key_action(Key::Char('x'), false, true, 5), PickerAction::Ignore);
    assert_eq!(key_action(Key::Other, false, false, 5), PickerAction::Ignore);
}

#[test]
fn mouse_events() {
    assert_eq!(
        mouse_action(MouseInput::LeftDown { column: 3, row: 7 }),
        PickerAction::Click { column: 3, row: 7 }
    );
    assert_eq!(mouse_action(MouseInput::ScrollUp), PickerAction::MoveSelection(-3));
    assert_eq!(mouse_action(MouseInput::ScrollDown), PickerAction::MoveSelection(3));
    assert_eq!(mouse_action(MouseInput::Other), PickerAction::Ignore);
}
