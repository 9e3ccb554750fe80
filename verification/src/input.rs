//! The input dispatcher: one polled event becomes at most one command.
//!
//! Dispatch is pure and total. Transport commands are recognized only while
//! the playback pane has focus and a session exists; navigation commands
//! only while the browser pane has focus. Every event the dispatcher does
//! not recognize is a no-op in the playback pane and is forwarded unchanged
//! to the file browser in the browser pane.

use crate::machine::PlayerSelection;
use vstd::prelude::*;

verus! {

/// The keys the player reads, with every other key folded into `Other`.
#[derive(Clone, Copy, PartialEq, Eq, Structural, Debug)]
pub enum KeyCode {
    Char(char),
    Enter,
    Tab,
    Up,
    Down,
    Left,
    Right,
    Other,
}

/// One keyboard event: the key, whether this is the press edge, and whether
/// shift was held.
#[derive(Clone, Copy, PartialEq, Eq, Structural, Debug)]
pub struct KeyEvent {
    pub code: KeyCode,
    pub is_press: bool,
    pub shift: bool,
}

/// One polled terminal event. Everything that is not a key press (mouse,
/// resize, paste, focus changes) is `Other`.
#[derive(Clone, Copy, PartialEq, Eq, Structural, Debug)]
pub enum InputEvent {
    Key(KeyEvent),
    Other,
}

/// A command for the live session's transport.
#[derive(Clone, Copy, PartialEq, Eq, Structural, Debug)]
pub enum TransportCmd {
    TogglePause,
    SeekForward,
    Rewind,
    VolumeUp,
    VolumeDown,
    SpeedUp,
    SpeedDown,
}

/// A navigation or lifecycle command.
#[derive(Clone, Copy, PartialEq, Eq, Structural, Debug)]
pub enum NavCmd {
    ConfirmSelection,
    SwitchPane,
    Quit,
}

/// What one event dispatches to.
#[derive(Clone, Copy, PartialEq, Eq, Structural, Debug)]
pub enum Dispatch {
    Transport(TransportCmd),
    Nav(NavCmd),
    Forward,
    Ignore,
}

/// The dispatch table: which command, if any, `ev` maps to under the given
/// focus, given whether a session exists.
pub open spec fn dispatch_spec(which: PlayerSelection, has_session: bool, ev: InputEvent) -> Dispatch {
    match ev {
        InputEvent::Key(k) => match which {
            PlayerSelection::FileExplorer => {
                if k.is_press && !k.shift && k.code == KeyCode::Char('q') {
                    Dispatch::Nav(NavCmd::Quit)
                } else if k.is_press && !k.shift && k.code == KeyCode::Tab && has_session {
                    Dispatch::Nav(NavCmd::SwitchPane)
                } else if k.is_press && !k.shift && k.code == KeyCode::Enter {
                    Dispatch::Nav(NavCmd::ConfirmSelection)
                } else {
                    Dispatch::Forward
                }
            },
            PlayerSelection::AudioPlayer => {
                if !has_session {
                    Dispatch::Ignore
                } else if k.is_press && !k.shift && k.code == KeyCode::Char('q') {
                    Dispatch::Nav(NavCmd::Quit)
                } else if k.is_press && !k.shift && k.code == KeyCode::Tab {
                    Dispatch::Nav(NavCmd::SwitchPane)
                } else if k.is_press && k.code == KeyCode::Enter {
                    Dispatch::Transport(TransportCmd::TogglePause)
                } else if k.is_press && k.code == KeyCode::Right {
                    Dispatch::Transport(TransportCmd::SeekForward)
                } else if k.is_press && k.code == KeyCode::Left {
                    Dispatch::Transport(TransportCmd::Rewind)
                } else if k.is_press && !k.shift && k.code == KeyCode::Up {
                    Dispatch::Transport(TransportCmd::VolumeUp)
                } else if k.is_press && !k.shift && k.code == KeyCode::Down {
                    Dispatch::Transport(TransportCmd::VolumeDown)
                } else if k.is_press && k.shift && k.code == KeyCode::Up {
                    Dispatch::Transport(TransportCmd::SpeedUp)
                } else if k.is_press && k.shift && k.code == KeyCode::Down {
                    Dispatch::Transport(TransportCmd::SpeedDown)
                } else {
                    Dispatch::Ignore
                }
            },
        },
        InputEvent::Other => match which {
            PlayerSelection::FileExplorer => Dispatch::Forward,
            PlayerSelection::AudioPlayer => Dispatch::Ignore,
        },
    }
}

/// Map one polled event to at most one command, as the dispatch table says.
pub fn dispatch(which: PlayerSelection, has_session: bool, ev: &InputEvent) -> (d: Dispatch)
    ensures
        d == dispatch_spec(which, has_session, *ev),
{
    match ev {
        InputEvent::Key(k) => match which {
            PlayerSelection::FileExplorer => {
                if k.is_press && !k.shift && k.code == KeyCode::Char('q') {
                    Dispatch::Nav(NavCmd::Quit)
                } else if k.is_press && !k.shift && k.code == KeyCode::Tab && has_session {
                    Dispatch::Nav(NavCmd::SwitchPane)
                } else if k.is_press && !k.shift && k.code == KeyCode::Enter {
                    Dispatch::Nav(NavCmd::ConfirmSelection)
                } else {
                    Dispatch::Forward
                }
            },
            PlayerSelection::AudioPlayer => {
                if !has_session {
                    Dispatch::Ignore
                } else if k.is_press && !k.shift && k.code == KeyCode::Char('q') {
                    Dispatch::Nav(NavCmd::Quit)
                } else if k.is_press && !k.shift && k.code == KeyCode::Tab {
                    Dispatch::Nav(NavCmd::SwitchPane)
                } else if k.is_press && k.code == KeyCode::Enter {
                    Dispatch::Transport(TransportCmd::TogglePause)
                } else if k.is_press && k.code == KeyCode::Right {
                    Dispatch::Transport(TransportCmd::SeekForward)
                } else if k.is_press && k.code == KeyCode::Left {
                    Dispatch::Transport(TransportCmd::Rewind)
                } else if k.is_press && !k.shift && k.code == KeyCode::Up {
                    Dispatch::Transport(TransportCmd::VolumeUp)
                } else if k.is_press && !k.shift && k.code == KeyCode::Down {
                    Dispatch::Transport(TransportCmd::VolumeDown)
                } else if k.is_press && k.shift && k.code == KeyCode::Up {
                    Dispatch::Transport(TransportCmd::SpeedUp)
                } else if k.is_press && k.shift && k.code == KeyCode::Down {
                    Dispatch::Transport(TransportCmd::SpeedDown)
                } else {
                    Dispatch::Ignore
                }
            },
        },
        InputEvent::Other => match which {
            PlayerSelection::FileExplorer => Dispatch::Forward,
            PlayerSelection::AudioPlayer => Dispatch::Ignore,
        },
    }
}

/// A transport command can only come out of the dispatcher while the
/// playback pane has focus and a session exists.
pub proof fn lemma_transport_only_in_playback(which: PlayerSelection, has_session: bool, ev: InputEvent)
    ensures
        dispatch_spec(which, has_session, ev) is Transport ==> which
            == PlayerSelection::AudioPlayer && has_session,
{
}

} // verus!
