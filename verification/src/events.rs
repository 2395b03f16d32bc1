//! What each key press and mouse event does in the picker: the decisions of
//! the event loop, from an input event to the action that the picker takes.
use vstd::prelude::*;

verus! {

/// A key of the keyboard, as far as the picker tells keys apart.
#[derive(Clone, Copy, Debug, PartialEq, Eq, Structural)]
pub enum Key {
    Esc,
    Enter,
    Up,
    Down,
    PageUp,
    PageDown,
    Tab,
    BackTab,
    Left,
    Right,
    Home,
    End,
    Backspace,
    Delete,
    Char(char),
    Other,
}

/// A mouse event, as far as the picker tells them apart.
#[derive(Clone, Copy, Debug, PartialEq, Eq, Structural)]
pub enum MouseInput {
    LeftDown { column: u16, row: u16 },
    ScrollUp,
    ScrollDown,
    Other,
}

/// What the picker does in answer to an event.
#[derive(Clone, Copy, Debug, PartialEq, Eq, Structural)]
pub enum PickerAction {
    /// Leave without selecting.
    Quit,
    /// Leave with the selected icon.
    Confirm,
    /// Move the selection by this many rows (negative: up).
    MoveSelection(isize),
    NextTab,
    PrevTab,
    CursorWordLeft,
    CursorWordRight,
    CursorLeft,
    CursorRight,
    CursorHome,
    CursorEnd,
    DeleteWordLeft,
    DeleteChar,
    DeleteWordRight,
    DeleteNextChar,
    /// Undo the last edit of the search text.
    Undo,
    /// Hand Ctrl and this lowercase letter to the search box's emacs bindings.
    EmacsInput(char),
    /// Type this character into the search box.
    InsertChar(char),
    /// A left click at this column and row: on a tab it selects the tab, on
    /// the list it selects the item (a second click confirms).
    Click { column: u16, row: u16 },
    Ignore,
}

/// Half a page: half the visible height, at least one row.
pub open spec fn half_page(visible_height: usize) -> usize {
    if visible_height / 2 >= 1 {
        visible_height / 2
    } else {
        1
    }
}

/// What a key press does, with Ctrl and Alt held as given and
/// `visible_height` rows of the list on screen. The first rule that applies
/// decides: Esc and Ctrl+C quit; Enter without Ctrl or Alt confirms; Up or
/// Ctrl+K moves up a row and Down or Ctrl+J down a row; PgUp and PgDn move a
/// page, Ctrl+U and Ctrl+D half a page; Tab and Shift+Tab switch tabs; Left
/// and Right with Ctrl or Alt move the search cursor by a word, without by a
/// character; Home and End move it to the ends; Ctrl+Backspace and Ctrl+W
/// delete the word before the cursor, Backspace the character before it;
/// Ctrl+Delete deletes the word after it, Delete the character after it;
/// Ctrl+Z undoes; any other Ctrl with a lowercase ASCII letter goes to the
/// search box's emacs bindings; a character without Ctrl or Alt is typed;
/// anything else is ignored.
pub open spec fn key_action_spec(key: Key, ctrl: bool, alt: bool, visible_height: usize) -> PickerAction {
    let page = visible_height as isize;
    let half = half_page(visible_height) as isize;
    match key {
        Key::Esc => PickerAction::Quit,
        Key::Char('c') if ctrl => PickerAction::Quit,
        Key::Enter if !ctrl && !alt => PickerAction::Confirm,
        Key::Up => PickerAction::MoveSelection(-1isize),
        Key::Char('k') if ctrl => PickerAction::MoveSelection(-1isize),
        Key::Down => PickerAction::MoveSelection(1isize),
        Key::Char('j') if ctrl => PickerAction::MoveSelection(1isize),
        Key::PageUp => PickerAction::MoveSelection((-page) as isize),
        Key::PageDown => PickerAction::MoveSelection(page),
        Key::Char('u') if ctrl => PickerAction::MoveSelection((-half) as isize),
        Key::Char('d') if ctrl => PickerAction::MoveSelection(half),
        Key::Tab => PickerAction::NextTab,
        Key::BackTab => PickerAction::PrevTab,
        Key::Left if ctrl || alt => PickerAction::CursorWordLeft,
        Key::Right if ctrl || alt => PickerAction::CursorWordRight,
        Key::Left => PickerAction::CursorLeft,
        Key::Right => PickerAction::CursorRight,
        Key::Home => PickerAction::CursorHome,
        Key::End => PickerAction::CursorEnd,
        Key::Backspace if ctrl => PickerAction::DeleteWordLeft,
        Key::Backspace => PickerAction::DeleteChar,
        Key::Delete if ctrl => PickerAction::DeleteWordRight,
        Key::Delete => PickerAction::DeleteNextChar,
        Key::Char('w') if ctrl => PickerAction::DeleteWordLeft,
        Key::Char('z') if ctrl => PickerAction::Undo,
        Key::Char(ch) if ctrl && 'a' <= ch && ch <= 'z' => PickerAction::EmacsInput(ch),
        Key::Char(ch) if !ctrl && !alt => PickerAction::InsertChar(ch),
        _ => PickerAction::Ignore,
    }
}

/// What a mouse event does: a left click goes to the tab bar or the list,
/// the wheel scrolls three rows, anything else is ignored.
pub open spec fn mouse_action_spec(m: MouseInput) -> PickerAction {
    match m {
        MouseInput::LeftDown { column, row } => PickerAction::Click { column, row },
        MouseInput::ScrollUp => PickerAction::MoveSelection(-3isize),
        MouseInput::ScrollDown => PickerAction::MoveSelection(3isize),
        MouseInput::Other => PickerAction::Ignore,
    }
}

/// What a key press does; see `key_action_spec`. A page up over a list
/// whose height reads as the least `isize` is left out: negating it
/// overflows.
pub fn key_action(key: Key, ctrl: bool, alt: bool, visible_height: usize) -> (a: PickerAction)
    requires
        key == Key::PageUp ==> visible_height as isize != isize::MIN,
    ensures
        a == key_action_spec(key, ctrl, alt, visible_height),
{
    match key {
        Key::Esc => PickerAction::Quit,
        Key::Char('c') if ctrl => PickerAction::Quit,
        Key::Enter if !ctrl && !alt => PickerAction::Confirm,
        Key::Up => PickerAction::MoveSelection(-1),
        Key::Char('k') if ctrl => PickerAction::MoveSelection(-1),
        Key::Down => PickerAction::MoveSelection(1),
        Key::Char('j') if ctrl => PickerAction::MoveSelection(1),
        Key::PageUp => {
            let h = visible_height as isize;
            PickerAction::MoveSelection(-h)
        },
        Key::PageDown => PickerAction::MoveSelection(visible_height as isize),
        Key::Char('u') if ctrl => {
            let half = if visible_height / 2 >= 1 {
                visible_height / 2
            } else {
                1
            };
            let half = half as isize;
            PickerAction::MoveSelection(-half)
        },
        Key::Char('d') if ctrl => {
            let half = if visible_height / 2 >= 1 {
                visible_height / 2
            } else {
                1
            };
            PickerAction::MoveSelection(half as isize)
        },
        Key::Tab => PickerAction::NextTab,
        Key::BackTab => PickerAction::PrevTab,
        Key::Left if ctrl || alt => PickerAction::CursorWordLeft,
        Key::Right if ctrl || alt => PickerAction::CursorWordRight,
        Key::Left => PickerAction::CursorLeft,
        Key::Right => PickerAction::CursorRight,
        Key::Home => PickerAction::CursorHome,
        Key::End => PickerAction::CursorEnd,
        Key::Backspace if ctrl => PickerAction::DeleteWordLeft,
        Key::Backspace => PickerAction::DeleteChar,
        Key::Delete if ctrl => PickerAction::DeleteWordRight,
        Key::Delete => PickerAction::DeleteNextChar,
        Key::Char('w') if ctrl => PickerAction::DeleteWordLeft,
        Key::Char('z') if ctrl => PickerAction::Undo,
        Key::Char(ch) if ctrl && 'a' <= ch && ch <= 'z' => PickerAction::EmacsInput(ch),
        Key::Char(ch) if !ctrl && !alt => PickerAction::InsertChar(ch),
        _ => PickerAction::Ignore,
    }
}

/// What a mouse event does; see `mouse_action_spec`.
pub fn mouse_action(m: MouseInput) -> (a: PickerAction)
    ensures
        a == mouse_action_spec(m),
{
    match m {
        MouseInput::LeftDown { column, row } => PickerAction::Click { column, row },
        MouseInput::ScrollUp => PickerAction::MoveSelection(-3),
        MouseInput::ScrollDown => PickerAction::MoveSelection(3),
        MouseInput::Other => PickerAction::Ignore,
    }
}

/// Only Esc and Ctrl+C leave without selecting, and only Enter without Ctrl
/// or Alt leaves with the selection; a typed character reaches the search box
/// only without Ctrl and Alt.
pub proof fn lemma_leaving_keys(key: Key, ctrl: bool, alt: bool, visible_height: usize)
    ensures
        key_action_spec(key, ctrl, alt, visible_height) == PickerAction::Quit <==> (key == Key::Esc
            || (key == Key::Char('c') && ctrl)),
        key_action_spec(key, ctrl, alt, visible_height) == PickerAction::Confirm <==> (key
            == Key::Enter && !ctrl && !alt),
        key_action_spec(key, ctrl, alt, visible_height) is InsertChar ==> (!ctrl && !alt),
{
}

/// Moving through the list, whatever modifiers are held: Up and Ctrl+K one
/// row up, Down and Ctrl+J one row down, PgUp and PgDn a whole visible page,
/// Ctrl+U and Ctrl+D half of it (at least one row, at most the page when
/// the page has a row); Tab and Shift+Tab switch to the next and previous
/// tab; the wheel scrolls three rows and a left click is passed on with its
/// position.
pub proof fn lemma_navigation_keys(ctrl: bool, alt: bool, h: usize, column: u16, row: u16)
    ensures
        key_action_spec(Key::Up, ctrl, alt, h) == PickerAction::MoveSelection(-1isize),
        key_action_spec(Key::Down, ctrl, alt, h) == PickerAction::MoveSelection(1isize),
        key_action_spec(Key::Char('k'), true, alt, h) == PickerAction::MoveSelection(-1isize),
        key_action_spec(Key::Char('j'), true, alt, h) == PickerAction::MoveSelection(1isize),
        h <= isize::MAX ==> (key_action_spec(Key::PageUp, ctrl, alt, h) matches PickerAction::MoveSelection(n)
            && n == -(h as int)),
        h <= isize::MAX ==> (key_action_spec(Key::PageDown, ctrl, alt, h) matches PickerAction::MoveSelection(n)
            && n == h as int),
        key_action_spec(Key::Char('u'), true, alt, h) matches PickerAction::MoveSelection(n) && n < 0 && (h
            >= 1 ==> -n <= h) && (h >= 2 ==> -n == h / 2),
        key_action_spec(Key::Char('d'), true, alt, h) matches PickerAction::MoveSelection(n) && n > 0 && (h
            >= 1 ==> n <= h) && (h >= 2 ==> n == h / 2),
        key_action_spec(Key::Tab, ctrl, alt, h) == PickerAction::NextTab,
        key_action_spec(Key::BackTab, ctrl, alt, h) == PickerAction::PrevTab,
        mouse_action_spec(MouseInput::ScrollUp) == PickerAction::MoveSelection(-3isize),
        mouse_action_spec(MouseInput::ScrollDown) == PickerAction::MoveSelection(3isize),
        mouse_action_spec(MouseInput::LeftDown { column, row }) == (PickerAction::Click { column, row }),
{
}

/// Editing the search text: Left and Right move the cursor by a word with
/// Ctrl or Alt held and by a character without; Home and End move it to the
/// ends; Backspace and Delete remove the word (with Ctrl) or the character
/// before and after the cursor, Ctrl+W the word before it; Ctrl+Z undoes;
/// Ctrl with any other lowercase letter goes to the emacs bindings of the
/// search box; and any character typed without Ctrl or Alt is inserted.
pub proof fn lemma_search_editing_keys(ctrl: bool, alt: bool, h: usize, ch: char)
    ensures
        (ctrl || alt) ==> key_action_spec(Key::Left, ctrl, alt, h) == PickerAction::CursorWordLeft,
        (ctrl || alt) ==> key_action_spec(Key::Right, ctrl, alt, h) == PickerAction::CursorWordRight,
        !(ctrl || alt) ==> key_action_spec(Key::Left, ctrl, alt, h) == PickerAction::CursorLeft,
        !(ctrl || alt) ==> key_action_spec(Key::Right, ctrl, alt, h) == PickerAction::CursorRight,
        key_action_spec(Key::Home, ctrl, alt, h) == PickerAction::CursorHome,
        key_action_spec(Key::End, ctrl, alt, h) == PickerAction::CursorEnd,
        key_action_spec(Key::Backspace, ctrl, alt, h) == (if ctrl {
            PickerAction::DeleteWordLeft
        } else {
            PickerAction::DeleteChar
        }),
        key_action_spec(Key::Delete, ctrl, alt, h) == (if ctrl {
            PickerAction::DeleteWordRight
        } else {
            PickerAction::DeleteNextChar
        }),
        key_action_spec(Key::Char('w'), true, alt, h) == PickerAction::DeleteWordLeft,
        key_action_spec(Key::Char('z'), true, alt, h) == PickerAction::Undo,
        ('a' <= ch <= 'z' && ch != 'c' && ch != 'k' && ch != 'j' && ch != 'u' && ch != 'd' && ch != 'w'
            && ch != 'z') ==> key_action_spec(Key::Char(ch), true, alt, h) == PickerAction::EmacsInput(ch),
        key_action_spec(Key::Char(ch), false, false, h) == PickerAction::InsertChar(ch),
{
}

} // verus!
