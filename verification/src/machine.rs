//! The player state machine: focus, the single session's lifecycle, and the
//! per-frame transition.
//!
//! The machine is one of three states: browsing with no session, browsing
//! while a session plays in the background, and the playback pane focused on
//! a live session. The two states with a session carry it; the playback
//! state cannot exist without one, so focus on the playback pane implies a
//! live session by construction. One polled event is dispatched and applied
//! atomically; the machine returns the effect the impure shell must carry
//! out (drive the backend, open or drop the audio handles, forward to the
//! file browser, or exit).

use crate::input::{dispatch, dispatch_spec, Dispatch, InputEvent, KeyCode, KeyEvent, NavCmd,
    TransportCmd};
use crate::media;
use crate::session::{saturating_add_spec, speed_down_spec, speed_up_spec, volume_down_spec,
    volume_up_spec, Session, SEEK_STEP_MILLIS, UNIT_TENTHS};
use crate::transport::{AppStatePlay, PaneColor};
use vstd::prelude::*;

verus! {

/// Which pane input is routed to: the file browser or the playback panel.
#[derive(Clone, Copy, PartialEq, Eq, Structural, Debug)]
pub enum PlayerSelection {
    FileExplorer,
    AudioPlayer,
}

impl PlayerSelection {
    /// The other pane.
    pub open spec fn toggle_spec(self) -> PlayerSelection {
        match self {
            PlayerSelection::FileExplorer => PlayerSelection::AudioPlayer,
            PlayerSelection::AudioPlayer => PlayerSelection::FileExplorer,
        }
    }

    /// Switch to the other pane.
    pub fn toggle(&mut self)
        ensures
            *final(self) == old(self).toggle_spec(),
    {
        match self {
            PlayerSelection::FileExplorer => {
                *self = PlayerSelection::AudioPlayer;
            },
            PlayerSelection::AudioPlayer => {
                *self = PlayerSelection::FileExplorer;
            },
        }
    }
}

/// The live session: the transport the backend has been commanded into,
/// paired with the snapshot the panel is drawn from. The pairing is the
/// presence invariant: a snapshot exists exactly when a session does.
#[derive(Clone, Debug)]
pub struct ActiveSession {
    pub transport: Session,
    pub snapshot: AppStatePlay,
}

/// The three states of the player.
#[derive(Clone, Debug)]
pub enum MachineState {
    /// Browsing, no track loaded.
    BrowseEmpty,
    /// Browsing while a loaded track plays in the background.
    BrowseWithSession { session: ActiveSession },
    /// The playback pane focused on the loaded track.
    Playback { session: ActiveSession },
}

/// Where input is routed in state `s`.
pub open spec fn focus_of(s: MachineState) -> PlayerSelection {
    match s {
        MachineState::Playback { .. } => PlayerSelection::AudioPlayer,
        _ => PlayerSelection::FileExplorer,
    }
}

/// Whether a session exists in state `s`.
pub open spec fn has_session_of(s: MachineState) -> bool {
    !(s is BrowseEmpty)
}

/// The session carried by `s`; meaningful only when one exists.
pub open spec fn session_of(s: MachineState) -> ActiveSession {
    match s {
        MachineState::BrowseWithSession { session } => session,
        MachineState::Playback { session } => session,
        MachineState::BrowseEmpty => arbitrary(),
    }
}

/// Focus moved to the other pane, with the session carried along. Without a
/// session there is nothing to switch to and the state is unchanged.
pub open spec fn switch_pane_spec(s: MachineState) -> MachineState {
    match s {
        MachineState::BrowseEmpty => MachineState::BrowseEmpty,
        MachineState::BrowseWithSession { session } => MachineState::Playback { session },
        MachineState::Playback { session } => MachineState::BrowseWithSession { session },
    }
}

/// The transport after one command.
pub open spec fn apply_transport_spec(t: Session, cmd: TransportCmd) -> Session {
    match cmd {
        TransportCmd::TogglePause => Session { paused: !t.paused, ..t },
        TransportCmd::SeekForward => Session {
            position_millis: saturating_add_spec(t.position_millis, SEEK_STEP_MILLIS),
            ..t
        },
        TransportCmd::Rewind => Session { position_millis: 0, ..t },
        TransportCmd::VolumeUp => Session {
            volume_tenths: volume_up_spec(t.volume_tenths as int) as u8,
            ..t
        },
        TransportCmd::VolumeDown => Session {
            volume_tenths: volume_down_spec(t.volume_tenths as int) as u8,
            ..t
        },
        TransportCmd::SpeedUp => Session {
            speed_tenths: speed_up_spec(t.speed_tenths as int) as u8,
            ..t
        },
        TransportCmd::SpeedDown => Session {
            speed_tenths: speed_down_spec(t.speed_tenths as int) as u8,
            ..t
        },
    }
}

/// The state after one dispatched command. Confirming a selection defers
/// the state change until the backend has opened the track, so a failed
/// open can never leave a half-created session behind.
pub open spec fn step_state_spec(s: MachineState, d: Dispatch) -> MachineState {
    match d {
        Dispatch::Transport(cmd) => match s {
            MachineState::Playback { session } => MachineState::Playback {
                session: ActiveSession {
                    transport: apply_transport_spec(session.transport, cmd),
                    snapshot: session.snapshot,
                },
            },
            _ => s,
        },
        Dispatch::Nav(NavCmd::SwitchPane) => switch_pane_spec(s),
        Dispatch::Nav(NavCmd::Quit) => match s {
            MachineState::BrowseEmpty => s,
            _ => MachineState::BrowseEmpty,
        },
        Dispatch::Nav(NavCmd::ConfirmSelection) => s,
        Dispatch::Forward => s,
        Dispatch::Ignore => s,
    }
}

/// Whether the frame loop keeps running after one dispatched command: quit
/// with no session to dismiss is the request to exit.
pub open spec fn step_running_spec(s: MachineState, d: Dispatch, running: bool) -> bool {
    if d == Dispatch::Nav(NavCmd::Quit) && s is BrowseEmpty {
        false
    } else {
        running
    }
}

/// What the impure shell is asked to carry out.
#[derive(Clone, Debug)]
pub enum Effect {
    /// Apply one transport command to the backend.
    Transport(TransportCmd),
    /// Open the given path as the new session and report back.
    OpenSession(String),
    /// Drop the backend handles of the session the machine just destroyed.
    DestroySession,
    /// Hand the event unchanged to the file browser.
    ForwardToExplorer,
    /// Leave the frame loop and restore the terminal.
    Exit,
}

/// The effect owed for one dispatched command in state `s`, where `path_ok`
/// says whether the selected path is a playable audio file.
pub open spec fn step_effect_spec_ok(
    eff: Option<Effect>,
    s: MachineState,
    d: Dispatch,
    path_ok: bool,
    selected: Seq<char>,
) -> bool {
    match d {
        Dispatch::Transport(cmd) => eff == Some(Effect::Transport(cmd)),
        Dispatch::Nav(NavCmd::ConfirmSelection) => if path_ok {
            match eff {
                Some(Effect::OpenSession(p)) => p@ == selected,
                _ => false,
            }
        } else {
            eff is None
        },
        Dispatch::Nav(NavCmd::SwitchPane) => eff is None,
        Dispatch::Nav(NavCmd::Quit) => if s is BrowseEmpty {
            eff == Some(Effect::Exit)
        } else {
            eff == Some(Effect::DestroySession)
        },
        Dispatch::Forward => eff == Some(Effect::ForwardToExplorer),
        Dispatch::Ignore => eff is None,
    }
}

/// The state after the per-frame poll of the backend: the playhead is taken
/// over, and a session whose queue has drained is destroyed, focus forced
/// back to the browser.
pub open spec fn frame_poll_spec(s: MachineState, pos: u64, queue_empty: bool) -> MachineState {
    match s {
        MachineState::BrowseEmpty => MachineState::BrowseEmpty,
        MachineState::BrowseWithSession { session } => if queue_empty {
            MachineState::BrowseEmpty
        } else {
            MachineState::BrowseWithSession { session: polled_session_spec(session, pos) }
        },
        MachineState::Playback { session } => if queue_empty {
            MachineState::BrowseEmpty
        } else {
            MachineState::Playback { session: polled_session_spec(session, pos) }
        },
    }
}

/// A session with the playhead the backend just reported.
pub open spec fn polled_session_spec(a: ActiveSession, pos: u64) -> ActiveSession {
    ActiveSession {
        transport: Session { position_millis: pos, ..a.transport },
        snapshot: AppStatePlay { current_millis: pos, ..a.snapshot },
    }
}

/// What the shell read about the opened track, already reduced to plain
/// values: the shown title, the tag fields (empty when unreadable), the
/// sample rate if the file reports one, and the total duration.
#[derive(Clone, Debug)]
pub struct TrackMeta {
    pub full_title: String,
    pub title: String,
    pub artist: String,
    pub album: String,
    pub genre: String,
    pub sample_rate: Option<u32>,
    pub total_duration_millis: u64,
}

/// The player state machine that the frame loop drives.
#[derive(Clone, Debug)]
pub struct AppStatePlayer {
    pub running: bool,
    pub debug: bool,
    pub state: MachineState,
}

impl AppStatePlayer {
    /// Every session the machine carries stays inside the transport ranges.
    pub open spec fn wf(&self) -> bool {
        has_session_of(self.state) ==> session_of(self.state).transport.wf()
    }

    /// A machine at its initial state: browsing, no session, not yet
    /// running.
    pub fn new(debug: bool) -> (m: AppStatePlayer)
        ensures
            m.state is BrowseEmpty,
            !m.running,
            m.debug == debug,
            m.wf(),
    {
        AppStatePlayer { running: false, debug, state: MachineState::BrowseEmpty }
    }

    /// Where input is routed now.
    pub fn focus(&self) -> (r: PlayerSelection)
        ensures
            r == focus_of(self.state),
    {
        match &self.state {
            MachineState::Playback { .. } => PlayerSelection::AudioPlayer,
            _ => PlayerSelection::FileExplorer,
        }
    }

    /// Whether a session exists now.
    pub fn has_session(&self) -> (r: bool)
        ensures
            r == has_session_of(self.state),
    {
        !matches!(self.state, MachineState::BrowseEmpty)
    }

    /// Whether the frame loop should keep running.
    pub fn is_running(&self) -> (r: bool)
        ensures
            r == self.running,
    {
        self.running
    }

    /// Enter the frame loop.
    pub fn start(&mut self)
        ensures
            *final(self) == (AppStatePlayer { running: true, ..*old(self) }),
    {
        self.running = true;
    }

    /// Leave the frame loop: a fatal terminal failure unwinds here, with the
    /// state otherwise untouched.
    pub fn stop(&mut self)
        ensures
            *final(self) == (AppStatePlayer { running: false, ..*old(self) }),
    {
        self.running = false;
    }

    /// The browser pane's highlight this frame: highlighted exactly when it
    /// has focus.
    pub fn explorer_color(&self) -> (c: PaneColor)
        ensures
            c == (if focus_of(self.state) == PlayerSelection::FileExplorer {
                PaneColor::Yellow
            } else {
                PaneColor::White
            }),
    {
        match self.focus() {
            PlayerSelection::FileExplorer => PaneColor::Yellow,
            PlayerSelection::AudioPlayer => PaneColor::White,
        }
    }

    /// The playback pane's highlight this frame: highlighted exactly when it
    /// has focus.
    pub fn panel_color(&self) -> (c: PaneColor)
        ensures
            c == (if focus_of(self.state) == PlayerSelection::AudioPlayer {
                PaneColor::Yellow
            } else {
                PaneColor::White
            }),
    {
        match self.focus() {
            PlayerSelection::FileExplorer => PaneColor::White,
            PlayerSelection::AudioPlayer => PaneColor::Yellow,
        }
    }

    /// The live session's transport, if one exists.
    pub fn transport(&self) -> (r: Option<Session>)
        ensures
            match r {
                Some(t) => has_session_of(self.state) && t == session_of(self.state).transport,
                None => !has_session_of(self.state),
            },
    {
        match &self.state {
            MachineState::BrowseEmpty => None,
            MachineState::BrowseWithSession { session } => Some(session.transport),
            MachineState::Playback { session } => Some(session.transport),
        }
    }

    /// The snapshot the panel is drawn from: the live session's, or the
    /// default snapshot when no session exists. The snapshot's presence thus
    /// always matches the session's.
    pub fn snapshot_or_default(&self) -> (r: AppStatePlay)
        ensures
            has_session_of(self.state) ==> r == session_of(self.state).snapshot,
            !has_session_of(self.state) ==> r.is_default(),
    {
        match &self.state {
            MachineState::BrowseEmpty => AppStatePlay::default(),
            MachineState::BrowseWithSession { session } => session.snapshot.duplicate(),
            MachineState::Playback { session } => session.snapshot.duplicate(),
        }
    }

    /// Apply one polled event: dispatch it under the current focus, apply
    /// the transition atomically, and return the effect the shell owes.
    pub fn handle_input(&mut self, ev: &InputEvent, selected_path: &String) -> (eff: Option<
        Effect,
    >)
        requires
            old(self).wf(),
        ensures
            final(self).debug == old(self).debug,
            final(self).state == step_state_spec(
                old(self).state,
                dispatch_spec(focus_of(old(self).state), has_session_of(old(self).state), *ev),
            ),
            final(self).running == step_running_spec(
                old(self).state,
                dispatch_spec(focus_of(old(self).state), has_session_of(old(self).state), *ev),
                old(self).running,
            ),
            step_effect_spec_ok(
                eff,
                old(self).state,
                dispatch_spec(focus_of(old(self).state), has_session_of(old(self).state), *ev),
                media::spec_is_audio_path(selected_path@),
                selected_path@,
            ),
            final(self).wf(),
    {
        let focus = self.focus();
        let has = self.has_session();
        let d = dispatch(focus, has, ev);
        match d {
            Dispatch::Transport(cmd) => {
                match &mut self.state {
                    MachineState::Playback { session } => {
                        match cmd {
                            TransportCmd::TogglePause => session.transport.toggle_pause(),
                            TransportCmd::SeekForward => session.transport.seek_forward(),
                            TransportCmd::Rewind => session.transport.rewind(),
                            TransportCmd::VolumeUp => session.transport.volume_up(),
                            TransportCmd::VolumeDown => session.transport.volume_down(),
                            TransportCmd::SpeedUp => session.transport.speed_up(),
                            TransportCmd::SpeedDown => session.transport.speed_down(),
                        }
                    },
                    _ => {},
                }
                Some(Effect::Transport(cmd))
            },
            Dispatch::Nav(NavCmd::SwitchPane) => {
                let mut st = MachineState::BrowseEmpty;
                core::mem::swap(&mut self.state, &mut st);
                self.state = match st {
                    MachineState::BrowseEmpty => MachineState::BrowseEmpty,
                    MachineState::BrowseWithSession { session } => MachineState::Playback {
                        session,
                    },
                    MachineState::Playback { session } => MachineState::BrowseWithSession {
                        session,
                    },
                };
                None
            },
            Dispatch::Nav(NavCmd::Quit) => {
                if matches!(self.state, MachineState::BrowseEmpty) {
                    self.running = false;
                    Some(Effect::Exit)
                } else {
                    self.state = MachineState::BrowseEmpty;
                    Some(Effect::DestroySession)
                }
            },
            Dispatch::Nav(NavCmd::ConfirmSelection) => {
                match media::verify_path_extension(selected_path) {
                    Some(p) => Some(Effect::OpenSession(p)),
                    None => None,
                }
            },
            Dispatch::Forward => Some(Effect::ForwardToExplorer),
            Dispatch::Ignore => None,
        }
    }

    /// Install the session the shell just opened, replacing any previous
    /// one, and move focus to the playback pane. The snapshot is populated
    /// from the track's metadata with a fresh transport.
    pub fn session_opened(&mut self, meta: TrackMeta)
        ensures
            final(self).running == old(self).running,
            final(self).debug == old(self).debug,
            final(self).state is Playback,
            final(self).wf(),
            session_of(final(self).state).transport == (Session {
                paused: false,
                volume_tenths: UNIT_TENTHS,
                speed_tenths: UNIT_TENTHS,
                position_millis: 0,
            }),
            session_of(final(self).state).snapshot.full_title == meta.full_title,
            session_of(final(self).state).snapshot.file_name == meta.title,
            session_of(final(self).state).snapshot.artist == meta.artist,
            session_of(final(self).state).snapshot.album == meta.album,
            session_of(final(self).state).snapshot.genre == meta.genre,
            session_of(final(self).state).snapshot.sample_rate@ == media::spec_sample_label(
                meta.sample_rate,
            ),
            session_of(final(self).state).snapshot.total_millis == meta.total_duration_millis,
            session_of(final(self).state).snapshot.current_millis == 0,
            session_of(final(self).state).snapshot.debug == old(self).debug,
            !session_of(final(self).state).snapshot.running,
            session_of(final(self).state).snapshot.color == PaneColor::Reset,
    {
        let sample_rate = media::get_sample_rate(meta.sample_rate);
        let snapshot = AppStatePlay {
            running: false,
            full_title: meta.full_title,
            file_name: meta.title,
            current_millis: 0,
            total_millis: meta.total_duration_millis,
            artist: meta.artist,
            album: meta.album,
            genre: meta.genre,
            sample_rate,
            debug: self.debug,
            color: PaneColor::Reset,
        };
        self.state = MachineState::Playback {
            session: ActiveSession { transport: Session::new(), snapshot },
        };
    }

    /// One frame's poll of the backend: take over the reported playhead,
    /// and when the queue has drained, destroy the session and force focus
    /// back to the browser. The shell must drop its audio handles exactly
    /// when the destroy effect comes back.
    pub fn frame_poll(&mut self, position_millis: u64, queue_empty: bool) -> (eff: Option<Effect>)
        requires
            old(self).wf(),
        ensures
            final(self).running == old(self).running,
            final(self).debug == old(self).debug,
            final(self).state == frame_poll_spec(old(self).state, position_millis, queue_empty),
            eff == (if has_session_of(old(self).state) && queue_empty {
                Some(Effect::DestroySession)
            } else {
                None::<Effect>
            }),
            final(self).wf(),
    {
        let ended = queue_empty && self.has_session();
        if ended {
            self.state = MachineState::BrowseEmpty;
            Some(Effect::DestroySession)
        } else {
            match &mut self.state {
                MachineState::BrowseEmpty => {},
                MachineState::BrowseWithSession { session } => {
                    session.transport.position_millis = position_millis;
                    session.snapshot.refresh(position_millis);
                },
                MachineState::Playback { session } => {
                    session.transport.position_millis = position_millis;
                    session.snapshot.refresh(position_millis);
                },
            }
            None
        }
    }
}

/// Focus on the playback pane implies a live session: the playback state is
/// the only one that routes input to the playback pane, and it carries its
/// session by construction, so the implication holds after every processed
/// event.
pub proof fn lemma_playback_focus_has_session(s: MachineState)
    ensures
        focus_of(s) == PlayerSelection::AudioPlayer ==> has_session_of(s),
{
}

/// Pressing switch-pane twice in a row returns the machine, and with it the
/// focus, to exactly where it was: with a session the two switches cancel,
/// and without one both presses fall through to the browser unchanged.
pub proof fn lemma_switch_pane_twice(s: MachineState)
    ensures
        ({
            let ev = InputEvent::Key(
                KeyEvent { code: KeyCode::Tab, is_press: true, shift: false },
            );
            let s1 = step_state_spec(s, dispatch_spec(focus_of(s), has_session_of(s), ev));
            let s2 = step_state_spec(s1, dispatch_spec(focus_of(s1), has_session_of(s1), ev));
            s2 == s && focus_of(s2) == focus_of(s)
        }),
{
}

} // verus!
