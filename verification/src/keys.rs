//! Keys as the user interfaces of the player understand them, and what each
//! key means on the plain terminal.

use vstd::prelude::*;
use crate::events::{UiEvent, UiEventView};

verus! {

/// A key of the keyboard.
#[derive(Clone, Copy, Debug, PartialEq, Eq, Structural)]
pub enum KeyCode {
    Char(char),
    Up,
    Down,
    Left,
    Right,
    Enter,
    Esc,
    Backspace,
    /// Any key that the player gives no meaning to.
    Other,
}

/// A key that was pressed, and whether the control key was held with it.
#[derive(Clone, Copy, Debug, PartialEq, Eq, Structural)]
pub struct KeyPress {
    pub code: KeyCode,
    pub control: bool,
}

/// What a key asks for while a song plays.
#[derive(Clone, Copy, Debug, PartialEq, Eq, Structural)]
pub enum PlayerKey {
    TogglePause,
    Next,
    Previous,
    Quit,
    /// Play what is selected.
    Select,
}

/// The meaning of a key on the plain terminal: space, `p` and `k` pause and
/// resume; `n` and the right arrow step forward; `b` and the left arrow step
/// back; `q` and escape quit; enter plays the selection. Letters count in
/// either case.
pub open spec fn player_key_of(code: KeyCode) -> Option<PlayerKey> {
    match code {
        KeyCode::Char(c) => if c == ' ' || c == 'p' || c == 'P' || c == 'k' || c == 'K' {
            Some(PlayerKey::TogglePause)
        } else if c == 'n' || c == 'N' {
            Some(PlayerKey::Next)
        } else if c == 'b' || c == 'B' {
            Some(PlayerKey::Previous)
        } else if c == 'q' || c == 'Q' {
            Some(PlayerKey::Quit)
        } else {
            None
        },
        KeyCode::Right => Some(PlayerKey::Next),
        KeyCode::Left => Some(PlayerKey::Previous),
        KeyCode::Esc => Some(PlayerKey::Quit),
        KeyCode::Enter => Some(PlayerKey::Select),
        _ => None,
    }
}

/// The meaning of a key on the plain terminal.
pub fn player_key(code: KeyCode) -> (key: Option<PlayerKey>)
    ensures
        key == player_key_of(code),
{
    match code {
        KeyCode::Char(c) => {
            if c == ' ' || c == 'p' || c == 'P' || c == 'k' || c == 'K' {
                Some(PlayerKey::TogglePause)
            } else if c == 'n' || c == 'N' {
                Some(PlayerKey::Next)
            } else if c == 'b' || c == 'B' {
                Some(PlayerKey::Previous)
            } else if c == 'q' || c == 'Q' {
                Some(PlayerKey::Quit)
            } else {
                None
            }
        },
        KeyCode::Right => Some(PlayerKey::Next),
        KeyCode::Left => Some(PlayerKey::Previous),
        KeyCode::Esc => Some(PlayerKey::Quit),
        KeyCode::Enter => Some(PlayerKey::Select),
        _ => None,
    }
}

/// The user event that a key of the plain terminal stands for.
pub open spec fn terminal_intent(code: KeyCode) -> Option<UiEventView> {
    match player_key_of(code) {
        Some(PlayerKey::TogglePause) => Some(UiEventView::TogglePauseRequested),
        Some(PlayerKey::Next) => Some(UiEventView::NextTrackRequested),
        Some(PlayerKey::Previous) => Some(UiEventView::PreviousTrackRequested),
        Some(PlayerKey::Quit) => Some(UiEventView::QuitRequested),
        Some(PlayerKey::Select) => Some(UiEventView::PlaySelectedRequested),
        None => None,
    }
}

/// The user event that a key of the plain terminal stands for.
pub fn terminal_key_event(code: KeyCode) -> (event: Option<UiEvent>)
    ensures
        event.deep_view() == terminal_intent(code),
{
    match player_key(code) {
        Some(PlayerKey::TogglePause) => Some(UiEvent::TogglePauseRequested),
        Some(PlayerKey::Next) => Some(UiEvent::NextTrackRequested),
        Some(PlayerKey::Previous) => Some(UiEvent::PreviousTrackRequested),
        Some(PlayerKey::Quit) => Some(UiEvent::QuitRequested),
        Some(PlayerKey::Select) => Some(UiEvent::PlaySelectedRequested),
        None => None,
    }
}

} // verus!
