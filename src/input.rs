//! What a key press does on each screen.

use vstd::prelude::*;
use crate::browser::UIMode;

verus! {

/// A key press, as far as the player tells keys apart.
#[derive(Debug, Clone, Copy, PartialEq, Eq, Structural)]
pub enum Key {
    Char(char),
    Left,
    Right,
    Up,
    Down,
    Enter,
    Backspace,
    Esc,
    Other,
}

/// What the player does in answer to a key press.
#[derive(Debug, Clone, Copy, PartialEq, Eq, Structural)]
pub enum Action {
    Quit,
    TogglePlayPause,
    NextTrack,
    PreviousTrack,
    ToggleShuffle,
    CycleRepeat,
    ShowScreen(UIMode),
    SeekForward,
    SeekBackward,
    SelectionUp,
    SelectionDown,
    PlaySelected,
    SearchBackspace,
    SearchInput(char),
    Nothing,
}

/// The action of `key` (with Shift held where `shift`) on screen `mode`.
///
/// On the normal screen: `q` or Esc quits, space plays or pauses, `n` or
/// Right and `p` or Left change track, Shift with Right or Left seeks, `s`
/// toggles shuffle, `r` cycles repeat, `t` opens the track list and `?` the
/// help. On the track list: Esc goes back, Up and Down move the selection,
/// Enter plays it, Backspace and characters edit the search. On the help
/// screen any key goes back.
pub open spec fn key_action_spec(mode: UIMode, key: Key, shift: bool) -> Action {
    match mode {
        UIMode::Normal => match key {
            Key::Char('q') => Action::Quit,
            Key::Char(' ') => Action::TogglePlayPause,
            Key::Char('n') => Action::NextTrack,
            Key::Char('p') => Action::PreviousTrack,
            Key::Char('s') => Action::ToggleShuffle,
            Key::Char('r') => Action::CycleRepeat,
            Key::Char('t') => Action::ShowScreen(UIMode::TrackList),
            Key::Char('?') => Action::ShowScreen(UIMode::Help),
            Key::Right => if shift { Action::SeekForward } else { Action::NextTrack },
            Key::Left => if shift { Action::SeekBackward } else { Action::PreviousTrack },
            Key::Esc => Action::Quit,
            _ => Action::Nothing,
        },
        UIMode::TrackList => match key {
            Key::Esc => Action::ShowScreen(UIMode::Normal),
            Key::Up => Action::SelectionUp,
            Key::Down => Action::SelectionDown,
            Key::Enter => Action::PlaySelected,
            Key::Backspace => Action::SearchBackspace,
            Key::Char(c) => Action::SearchInput(c),
            _ => Action::Nothing,
        },
        UIMode::Help => Action::ShowScreen(UIMode::Normal),
    }
}

/// The action of `key` (with Shift held where `shift`) on screen `mode`.
pub fn key_action(mode: UIMode, key: Key, shift: bool) -> (r: Action)
    ensures
        r == key_action_spec(mode, key, shift),
{
    match mode {
        UIMode::Normal => match key {
            Key::Char('q') => Action::Quit,
            Key::Char(' ') => Action::TogglePlayPause,
            Key::Char('n') => Action::NextTrack,
            Key::Char('p') => Action::PreviousTrack,
            Key::Char('s') => Action::ToggleShuffle,
            Key::Char('r') => Action::CycleRepeat,
            Key::Char('t') => Action::ShowScreen(UIMode::TrackList),
            Key::Char('?') => Action::ShowScreen(UIMode::Help),
            Key::Right => if shift { Action::SeekForward } else { Action::NextTrack },
            Key::Left => if shift { Action::SeekBackward } else { Action::PreviousTrack },
            Key::Esc => Action::Quit,
            _ => Action::Nothing,
        },
        UIMode::TrackList => match key {
            Key::Esc => Action::ShowScreen(UIMode::Normal),
            Key::Up => Action::SelectionUp,
            Key::Down => Action::SelectionDown,
            Key::Enter => Action::PlaySelected,
            Key::Backspace => Action::SearchBackspace,
            Key::Char(c) => Action::SearchInput(c),
            _ => Action::Nothing,
        },
        UIMode::Help => Action::ShowScreen(UIMode::Normal),
    }
}

} // verus!
