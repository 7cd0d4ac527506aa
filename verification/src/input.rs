//! Pure classification of raw key events into navigation commands.

use vstd::prelude::*;

verus! {

/// The session-wide UI mode; exactly one is active at any time.
#[derive(Clone, Copy, Debug, PartialEq, Eq, Structural)]
pub enum Mode {
    Normal,
    Command,
}

/// A raw key event as the terminal collaborator reports it.
#[derive(Clone, Copy, Debug, PartialEq, Eq, Structural)]
pub enum Key {
    Char(char),
    Up,
    Down,
    Left,
    Right,
    Enter,
    Escape,
}

/// The closed set of commands a key event can resolve to.
#[derive(Clone, Copy, Debug, PartialEq, Eq, Structural)]
pub enum Command {
    MoveUp,
    MoveDown,
    Enter,
    Back,
    ToggleCommandMode,
    Quit,
    /// Switch focus to the tab at this position in tab-bar order.
    SwitchTab(usize),
    Unhandled,
}

/// What a key resolves to. In Normal mode, `j`/down moves down, `k`/up
/// moves up, `l`/right/enter descends, `h`/left goes back, `q` quits, `:`
/// opens the command box, and the digits `1`..`9` switch tabs. In Command
/// mode only escape and enter (cancel/submit) do anything here — they
/// toggle back to Normal; every other key is raw text for the command box
/// and passes through unhandled. Quit is recognized in Normal mode only.
pub open spec fn classify_m(mode: Mode, key: Key) -> Command {
    match mode {
        Mode::Normal => match key {
            Key::Down => Command::MoveDown,
            Key::Up => Command::MoveUp,
            Key::Right => Command::Enter,
            Key::Left => Command::Back,
            Key::Enter => Command::Enter,
            Key::Escape => Command::Unhandled,
            Key::Char(c) => if c == 'j' {
                Command::MoveDown
            } else if c == 'k' {
                Command::MoveUp
            } else if c == 'l' {
                Command::Enter
            } else if c == 'h' {
                Command::Back
            } else if c == 'q' {
                Command::Quit
            } else if c == ':' {
                Command::ToggleCommandMode
            } else if ('1' as u32) <= (c as u32) && (c as u32) <= ('9' as u32) {
                Command::SwitchTab(((c as u32) - ('1' as u32)) as usize)
            } else {
                Command::Unhandled
            },
        },
        Mode::Command => match key {
            Key::Escape => Command::ToggleCommandMode,
            Key::Enter => Command::ToggleCommandMode,
            _ => Command::Unhandled,
        },
    }
}

/// Resolve one raw key event under the current UI mode.
pub fn classify(mode: Mode, key: Key) -> (r: Command)
    ensures
        r == classify_m(mode, key),
{
    match mode {
        Mode::Normal => match key {
            Key::Down => Command::MoveDown,
            Key::Up => Command::MoveUp,
            Key::Right => Command::Enter,
            Key::Left => Command::Back,
            Key::Enter => Command::Enter,
            Key::Escape => Command::Unhandled,
            Key::Char(c) => if c == 'j' {
                Command::MoveDown
            } else if c == 'k' {
                Command::MoveUp
            } else if c == 'l' {
                Command::Enter
            } else if c == 'h' {
                Command::Back
            } else if c == 'q' {
                Command::Quit
            } else if c == ':' {
                Command::ToggleCommandMode
            } else if ('1' as u32) <= (c as u32) && (c as u32) <= ('9' as u32) {
                Command::SwitchTab(((c as u32) - ('1' as u32)) as usize)
            } else {
                Command::Unhandled
            },
        },
        Mode::Command => match key {
            Key::Escape => Command::ToggleCommandMode,
            Key::Enter => Command::ToggleCommandMode,
            _ => Command::Unhandled,
        },
    }
}

/// No key quits the session from Command mode: an arbitrary key typed into
/// the command box can never resolve to `Quit`.
pub proof fn lemma_command_mode_never_quits(key: Key)
    ensures
        classify_m(Mode::Command, key) != Command::Quit,
{
}

} // verus!
