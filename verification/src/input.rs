use vstd::prelude::*;

verus! {

/// The key that an input event reports.
///
/// The screens react to a handful of keys; every other key is `Other`.
#[derive(Clone, Copy, Debug, PartialEq, Eq)]
pub enum KeyCode {
    Char(char),
    Esc,
    Backspace,
    Up,
    Down,
    Enter,
    Other,
}

/// Whether a key went down, is held, or went up.
#[derive(Clone, Copy, Debug, PartialEq, Eq)]
pub enum KeyEventKind {
    Press,
    Repeat,
    Release,
}

/// A key event: which key and what happened to it.
#[derive(Clone, Copy, Debug, PartialEq, Eq)]
pub struct KeyEvent {
    pub code: KeyCode,
    pub kind: KeyEventKind,
}

/// A terminal input event. Only key events drive the screens.
#[derive(Clone, Copy, Debug, PartialEq, Eq)]
pub enum Event {
    Key(KeyEvent),
    Other,
}

impl KeyEvent {
    /// A key press of `code`.
    pub fn press(code: KeyCode) -> (r: KeyEvent)
        ensures
            r.code == code,
            r.kind == KeyEventKind::Press,
    {
        KeyEvent { code, kind: KeyEventKind::Press }
    }

    /// Whether the event is a key press.
    pub fn is_press(&self) -> (r: bool)
        ensures
            r == (self.kind == KeyEventKind::Press),
    {
        match self.kind {
            KeyEventKind::Press => true,
            _ => false,
        }
    }
}

/// The key quits the application (`q` or `Esc`).
pub open spec fn is_quit_key(code: KeyCode) -> bool {
    code == KeyCode::Char('q') || code == KeyCode::Esc
}

/// The key moves up (`k` or the up arrow).
pub open spec fn is_up_key(code: KeyCode) -> bool {
    code == KeyCode::Char('k') || code == KeyCode::Up
}

/// The key moves down (`j` or the down arrow).
pub open spec fn is_down_key(code: KeyCode) -> bool {
    code == KeyCode::Char('j') || code == KeyCode::Down
}

} // verus!
