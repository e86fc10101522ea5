use vstd::prelude::*;

verus! {

/// A key of the keyboard, as the application tells them apart.
#[derive(Clone, Copy, PartialEq, Eq, Structural, Debug)]
pub enum KeyCode {
    Char(char),
    F(u8),
    Esc,
    Enter,
    Backspace,
    Tab,
    BackTab,
    Left,
    Right,
    Up,
    Down,
    PageUp,
    PageDown,
    Other,
}

/// Whether a key went down, is held, or went up.
#[derive(Clone, Copy, PartialEq, Eq, Structural, Debug)]
pub enum KeyEventKind {
    Press,
    Repeat,
    Release,
}

/// One key event: the key, whether Control or Shift was held, and its kind.
#[derive(Clone, Copy, PartialEq, Eq, Structural, Debug)]
pub struct KeyEvent {
    pub code: KeyCode,
    pub control: bool,
    pub shift: bool,
    pub kind: KeyEventKind,
}

impl KeyEvent {
    /// A press of `code` with no modifier held.
    pub fn press(code: KeyCode) -> (r: Self)
        ensures
            r == (KeyEvent { code, control: false, shift: false, kind: KeyEventKind::Press }),
    {
        KeyEvent { code, control: false, shift: false, kind: KeyEventKind::Press }
    }

    pub open spec fn is_press(self) -> bool {
        self.kind == KeyEventKind::Press
    }
}

/// The keys that move a hover forward: `j`, Down, Right and Tab.
pub open spec fn spec_is_cycle_forward_hover_key(key: KeyEvent) -> bool {
    key.code == KeyCode::Char('j') || key.code == KeyCode::Down || key.code == KeyCode::Right
        || key.code == KeyCode::Tab
}

/// The keys that move a hover backward: `k`, Up, Left and BackTab.
pub open spec fn spec_is_cycle_backward_hover_key(key: KeyEvent) -> bool {
    key.code == KeyCode::Char('k') || key.code == KeyCode::Up || key.code == KeyCode::Left
        || key.code == KeyCode::BackTab
}

/// Whether the key moves a hover forward.
pub fn is_cycle_forward_hover_key(key_event: &KeyEvent) -> (r: bool)
    ensures
        r == spec_is_cycle_forward_hover_key(*key_event),
{
    match key_event.code {
        KeyCode::Char(c) => c == 'j',
        KeyCode::Down => true,
        KeyCode::Right => true,
        KeyCode::Tab => true,
        _ => false,
    }
}

/// Whether the key moves a hover backward.
pub fn is_cycle_backward_hover_key(key_event: &KeyEvent) -> (r: bool)
    ensures
        r == spec_is_cycle_backward_hover_key(*key_event),
{
    match key_event.code {
        KeyCode::Char(c) => c == 'k',
        KeyCode::Up => true,
        KeyCode::Left => true,
        KeyCode::BackTab => true,
        _ => false,
    }
}

/// The application-wide state: whether it should stop.
pub struct AppState {
    pub should_quit: bool,
}

/// Keys that act whatever has the focus: a press of F1 stops the application.
pub fn handle_global_events(key: &KeyEvent, state: &mut AppState)
    ensures
        final(state).should_quit == (old(state).should_quit || (key.is_press() && key.code
            == KeyCode::F(1))),
{
    if key.kind == KeyEventKind::Press {
        if let KeyCode::F(num) = key.code {
            if num == 1 {
                state.should_quit = true;
            }
        }
    }
}

} // verus!
