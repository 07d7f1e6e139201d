//! Key events as the interaction sees them, what each key means in `Normal`
//! mode, and the two-key chords.
use vstd::prelude::*;

verus! {

/// Which key was pressed.
#[derive(Clone, Copy, Debug, PartialEq, Eq, Structural)]
pub enum KeyCode {
    Char(char),
    Enter,
    Esc,
    Backspace,
    Tab,
    BackTab,
    Up,
    Down,
    Left,
    Right,
    Home,
    End,
    Other,
}

/// A key press with the modifiers that matter here.
#[derive(Clone, Copy, Debug, PartialEq, Eq, Structural)]
pub struct KeyInput {
    pub code: KeyCode,
    pub ctrl: bool,
    pub alt: bool,
}

impl KeyInput {
    /// A key pressed without modifiers.
    pub fn plain(code: KeyCode) -> (r: Self)
        ensures
            r == (KeyInput { code, ctrl: false, alt: false }),
    {
        KeyInput { code, ctrl: false, alt: false }
    }

    /// A character typed with Ctrl held.
    pub fn ctrl(c: char) -> (r: Self)
        ensures
            r == (KeyInput { code: KeyCode::Char(c), ctrl: true, alt: false }),
    {
        KeyInput { code: KeyCode::Char(c), ctrl: true, alt: false }
    }
}

/// Ctrl-C, which leaves the interaction from any mode.
pub open spec fn is_interrupt(k: KeyInput) -> bool {
    k.ctrl && k.code == KeyCode::Char('c')
}

/// A character to be typed into a buffer: no Ctrl, no Alt.
pub open spec fn typed_char(k: KeyInput) -> Option<char> {
    match k.code {
        KeyCode::Char(c) => if !k.ctrl && !k.alt {
            Some(c)
        } else {
            None
        },
        _ => None,
    }
}

/// What a key does in `Normal` mode.
#[derive(Clone, Copy, Debug, PartialEq, Eq, Structural)]
pub enum NormalAction {
    Quit,
    Connect,
    PageDown,
    PageUp,
    Delete,
    Add,
    Scp,
    ToggleMonitor,
    Prev,
    Next,
    First,
    Last,
    Top,
    Search,
    Escape,
    Ignore,
}

/// The `Normal`-mode key bindings.
pub open spec fn normal_action(k: KeyInput) -> NormalAction {
    match k.code {
        KeyCode::Char(c) => if c == 'q' {
            NormalAction::Quit
        } else if k.ctrl && c == 'd' {
            NormalAction::PageDown
        } else if k.ctrl && c == 'u' {
            NormalAction::PageUp
        } else if c == 'd' {
            NormalAction::Delete
        } else if c == 'a' || c == 'o' || c == 'O' {
            NormalAction::Add
        } else if c == 's' {
            NormalAction::Scp
        } else if c == 'm' {
            NormalAction::ToggleMonitor
        } else if c == 'k' || c == 'N' {
            NormalAction::Prev
        } else if c == 'j' || c == 'n' {
            NormalAction::Next
        } else if c == 'G' {
            NormalAction::Last
        } else if c == 'g' {
            NormalAction::Top
        } else if c == '/' {
            NormalAction::Search
        } else {
            NormalAction::Ignore
        },
        KeyCode::Enter => NormalAction::Connect,
        KeyCode::Up => NormalAction::Prev,
        KeyCode::Down => NormalAction::Next,
        KeyCode::Home => NormalAction::First,
        KeyCode::End => NormalAction::Last,
        KeyCode::Esc => NormalAction::Escape,
        _ => NormalAction::Ignore,
    }
}

/// Reads a key in `Normal` mode.
pub fn normal_action_of(k: KeyInput) -> (r: NormalAction)
    ensures
        r == normal_action(k),
{
    match k.code {
        KeyCode::Char(c) => {
            if c == 'q' {
                NormalAction::Quit
            } else if k.ctrl && c == 'd' {
                NormalAction::PageDown
            } else if k.ctrl && c == 'u' {
                NormalAction::PageUp
            } else if c == 'd' {
                NormalAction::Delete
            } else if c == 'a' || c == 'o' || c == 'O' {
                NormalAction::Add
            } else if c == 's' {
                NormalAction::Scp
            } else if c == 'm' {
                NormalAction::ToggleMonitor
            } else if c == 'k' || c == 'N' {
                NormalAction::Prev
            } else if c == 'j' || c == 'n' {
                NormalAction::Next
            } else if c == 'G' {
                NormalAction::Last
            } else if c == 'g' {
                NormalAction::Top
            } else if c == '/' {
                NormalAction::Search
            } else {
                NormalAction::Ignore
            }
        },
        KeyCode::Enter => NormalAction::Connect,
        KeyCode::Up => NormalAction::Prev,
        KeyCode::Down => NormalAction::Next,
        KeyCode::Home => NormalAction::First,
        KeyCode::End => NormalAction::Last,
        KeyCode::Esc => NormalAction::Escape,
        _ => NormalAction::Ignore,
    }
}

/// The key that starts, and completes, a chord: `dd` deletes, `gg` goes to the top.
pub open spec fn chord_leader(a: NormalAction) -> Option<char> {
    match a {
        NormalAction::Delete => Some('d'),
        NormalAction::Top => Some('g'),
        _ => None,
    }
}

/// One key through the chord slot: the new marker, and whether the chord fires.
/// A leading key fires when its own marker is set and otherwise sets it; any
/// other key clears the marker.
pub open spec fn chord_next(pending: Option<char>, a: NormalAction) -> (Option<char>, bool) {
    match chord_leader(a) {
        Some(c) => if pending == Some(c) {
            (None, true)
        } else {
            (Some(c), false)
        },
        None => (None, false),
    }
}

/// Passes one key through the chord slot.
pub fn chord_step(pending: Option<char>, a: NormalAction) -> (r: (Option<char>, bool))
    ensures
        r == chord_next(pending, a),
{
    let leader = match a {
        NormalAction::Delete => Some('d'),
        NormalAction::Top => Some('g'),
        _ => None,
    };
    match leader {
        Some(c) => {
            if pending == Some(c) {
                (None, true)
            } else {
                (Some(c), false)
            }
        },
        None => (None, false),
    }
}

/// The first press of a leading key sets its marker and does not fire; any
/// other key after it clears that marker without firing; the same leading key
/// pressed again fires once and leaves the slot empty.
pub proof fn lemma_chord(a: NormalAction, b: NormalAction)
    requires
        chord_leader(a) is Some,
        b != a,
    ensures
        chord_next(None, a) == (chord_leader(a), false),
        chord_next(chord_next(None, a).0, b).0 != chord_leader(a),
        !chord_next(chord_next(None, a).0, b).1,
        chord_next(chord_next(None, a).0, a) == (None::<char>, true),
{
}

} // verus!
