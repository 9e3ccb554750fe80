use tui_audio::input::{InputEvent, KeyCode, KeyEvent};
use tui_audio::machine::{AppStatePlayer, Effect, MachineState, PlayerSelection, TrackMeta};
use tui_audio::transport::PaneColor;

fn press(code: KeyCode) -> InputEvent {
    InputEvent::Key(KeyEvent { code, is_press: true, shift: false })
}

fn shift_press(code: KeyCode) -> InputEvent {
    InputEvent::Key(KeyEvent { code, is_press: true, shift: true })
}

fn meta_for(path: &str, total_millis: u64) -> TrackMeta {
    TrackMeta {
        full_title: path.to_string(),
        title: String::new(),
        artist: String::new(),
        album: String::new(),
        genre: String::new(),
        sample_rate: None,
        total_duration_millis: total_millis,
    }
}

fn machine_with_session(path: &str) -> AppStatePlayer {
    let mut m = AppStatePlayer::new(false);
    m.start();
    let eff = m.handle_input(&press(KeyCode::Enter), &path.to_string());
    assert!(matches!(eff, Some(Effect::OpenSession(_))));
    m.session_opened(meta_for(path, 180_000));
    m
}

#[test]
fn confirm_valid_selection_reaches_playback() {
    let mut m = AppStatePlayer::new(false);
    m.start();
    assert!(matches!(m.state, MachineState::BrowseEmpty));
    let eff = m.handle_input(&press(KeyCode::Enter), &"track.mp3".to_string());
    match eff {
        Some(Effect::OpenSession(p)) => assert_eq!(p, "track.mp3"),
        other => panic!("expected an open effect, got {:?}", other),
    }
    // The confirm alone must not create a session: the backend has not
    // opened the file yet.
    assert!(!m.has_session());
    m.session_opened(meta_for("track.mp3", 180_000));
    assert!(matches!(m.state, MachineState::Playback { .. }));
    assert_eq!(m.focus(), PlayerSelection::AudioPlayer);
    let snap = m.snapshot_or_default();
    assert_eq!(snap.full_title, "track.mp3");
}

#[test]
fn paused_session_position_is_frozen() {
    let mut m = machine_with_session("track.mp3");
    let eff = m.handle_input(&press(KeyCode::Enter), &String::new());
    assert!(matches!(
        eff,
        Some(Effect::Transport(tui_audio::input::TransportCmd::TogglePause))
    ));
    let mut t = m.transport().expect("session transport");
    assert!(t.paused);
    let p1 = t.position_millis;
    t.advance(0);
    let p2 = t.position_millis;
    t.advance(0);
    let p3 = t.position_millis;
    assert_eq!(p1, p2);
    assert_eq!(p2, p3);
    // Even elapsed time does not move a paused playhead.
    t.advance(5_000);
    assert_eq!(t.position_millis, p1);
    // A playing transport does move.
    t.toggle_pause();
    t.advance(5_000);
    assert_eq!(t.position_millis, p1 + 5_000);
}

#[test]
fn empty_queue_destroys_session_and_resets_snapshot() {
    let mut m = machine_with_session("track.mp3");
    assert!(matches!(m.state, MachineState::Playback { .. }));
    let eff = m.frame_poll(42_000, true);
    assert!(matches!(eff, Some(Effect::DestroySession)));
    assert!(matches!(m.state, MachineState::BrowseEmpty));
    assert_eq!(m.focus(), PlayerSelection::FileExplorer);
    let snap = m.snapshot_or_default();
    assert_eq!(snap.full_title, "");
    assert_eq!(snap.file_name, "");
    assert_eq!(snap.current_millis, 0);
    assert_eq!(snap.total_millis, 0);
}

#[test]
fn empty_queue_in_background_also_destroys_session() {
    let mut m = machine_with_session("track.mp3");
    let _ = m.handle_input(&press(KeyCode::Tab), &String::new());
    assert!(matches!(m.state, MachineState::BrowseWithSession { .. }));
    let eff = m.frame_poll(0, true);
    assert!(matches!(eff, Some(Effect::DestroySession)));
    assert!(matches!(m.state, MachineState::BrowseEmpty));
}

#[test]
fn invalid_selection_is_ignored() {
    let mut m = AppStatePlayer::new(false);
    m.start();
    let eff = m.handle_input(&press(KeyCode::Enter), &"notes.txt".to_string());
    assert!(eff.is_none());
    assert!(matches!(m.state, MachineState::BrowseEmpty));
    assert!(!m.has_session());
    assert!(m.is_running());
}

#[test]
fn quit_dismisses_then_exits() {
    let mut m = machine_with_session("track.mp3");
    let _ = m.handle_input(&press(KeyCode::Tab), &String::new());
    assert!(matches!(m.state, MachineState::BrowseWithSession { .. }));
    let eff = m.handle_input(&press(KeyCode::Char('q')), &String::new());
    assert!(matches!(eff, Some(Effect::DestroySession)));
    assert!(matches!(m.state, MachineState::BrowseEmpty));
    assert!(m.is_running());
    let eff = m.handle_input(&press(KeyCode::Char('q')), &String::new());
    assert!(matches!(eff, Some(Effect::Exit)));
    assert!(!m.is_running());
}

#[test]
fn switch_pane_twice_returns_focus() {
    let mut m = machine_with_session("track.mp3");
    let before = m.focus();
    let _ = m.handle_input(&press(KeyCode::Tab), &String::new());
    assert_ne!(m.focus(), before);
    let _ = m.handle_input(&press(KeyCode::Tab), &String::new());
    assert_eq!(m.focus(), before);
}

#[test]
fn switch_pane_without_session_is_forwarded() {
    let mut m = AppStatePlayer::new(false);
    m.start();
    let eff = m.handle_input(&press(KeyCode::Tab), &String::new());
    assert!(matches!(eff, Some(Effect::ForwardToExplorer)));
    assert_eq!(m.focus(), PlayerSelection::FileExplorer);
    let eff = m.handle_input(&press(KeyCode::Tab), &String::new());
    assert!(matches!(eff, Some(Effect::ForwardToExplorer)));
    assert_eq!(m.focus(), PlayerSelection::FileExplorer);
}

#[test]
fn focus_playback_always_has_session() {
    // Drive the machine through a whole series of events and check the
    // invariant after each one.
    let mut m = AppStatePlayer::new(false);
    m.start();
    let events = [
        press(KeyCode::Tab),
        press(KeyCode::Enter),
        press(KeyCode::Char('q')),
        press(KeyCode::Up),
        shift_press(KeyCode::Down),
        press(KeyCode::Other),
        InputEvent::Other,
    ];
    let check = |m: &AppStatePlayer| {
        if m.focus() == PlayerSelection::AudioPlayer {
            assert!(m.has_session());
        }
    };
    for ev in events.iter() {
        let _ = m.handle_input(ev, &"x.wav".to_string());
        check(&m);
    }
    m.session_opened(meta_for("x.wav", 1000));
    check(&m);
    for ev in events.iter() {
        let _ = m.handle_input(ev, &"x.wav".to_string());
        check(&m);
        let _ = m.frame_poll(10, false);
        check(&m);
    }
    let _ = m.frame_poll(10, true);
    check(&m);
}

#[test]
fn confirm_replaces_running_session() {
    let mut m = machine_with_session("first.mp3");
    let _ = m.handle_input(&press(KeyCode::Tab), &String::new());
    let eff = m.handle_input(&press(KeyCode::Enter), &"second.ogg".to_string());
    match eff {
        Some(Effect::OpenSession(p)) => assert_eq!(p, "second.ogg"),
        other => panic!("expected an open effect, got {:?}", other),
    }
    m.session_opened(meta_for("second.ogg", 90_000));
    assert!(matches!(m.state, MachineState::Playback { .. }));
    assert_eq!(m.snapshot_or_default().full_title, "second.ogg");
    let t = m.transport().unwrap();
    assert!(!t.paused);
    assert_eq!(t.position_millis, 0);
}

#[test]
fn failed_open_leaves_no_session() {
    let mut m = AppStatePlayer::new(false);
    m.start();
    let eff = m.handle_input(&press(KeyCode::Enter), &"track.mp3".to_string());
    assert!(matches!(eff, Some(Effect::OpenSession(_))));
    // The shell could not open the track, so it never reports back: the
    // machine must not have a half-created session.
    assert!(!m.has_session());
    assert!(matches!(m.state, MachineState::BrowseEmpty));
    assert!(m.is_running());
}

#[test]
fn frame_poll_refreshes_playhead() {
    let mut m = machine_with_session("track.mp3");
    let eff = m.frame_poll(1234, false);
    assert!(eff.is_none());
    assert_eq!(m.snapshot_or_default().current_millis, 1234);
    assert_eq!(m.transport().unwrap().position_millis, 1234);
}

#[test]
fn volume_and_speed_clamp_through_keys() {
    let mut m = machine_with_session("track.mp3");
    for _ in 0..25 {
        let _ = m.handle_input(&press(KeyCode::Up), &String::new());
    }
    assert_eq!(m.transport().unwrap().volume_tenths, 20);
    let _ = m.handle_input(&press(KeyCode::Up), &String::new());
    assert_eq!(m.transport().unwrap().volume_tenths, 20);
    for _ in 0..25 {
        let _ = m.handle_input(&press(KeyCode::Down), &String::new());
    }
    assert_eq!(m.transport().unwrap().volume_tenths, 0);
    for _ in 0..25 {
        let _ = m.handle_input(&shift_press(KeyCode::Up), &String::new());
    }
    assert_eq!(m.transport().unwrap().speed_tenths, 20);
    for _ in 0..25 {
        let _ = m.handle_input(&shift_press(KeyCode::Down), &String::new());
    }
    assert_eq!(m.transport().unwrap().speed_tenths, 1);
}

#[test]
fn seek_and_rewind_through_keys() {
    let mut m = machine_with_session("track.mp3");
    let _ = m.handle_input(&press(KeyCode::Right), &String::new());
    let _ = m.handle_input(&press(KeyCode::Right), &String::new());
    assert_eq!(m.transport().unwrap().position_millis, 10_000);
    let _ = m.handle_input(&press(KeyCode::Left), &String::new());
    assert_eq!(m.transport().unwrap().position_millis, 0);
}

#[test]
fn pane_colors_follow_focus() {
    let mut m = machine_with_session("track.mp3");
    assert_eq!(m.explorer_color(), PaneColor::White);
    assert_eq!(m.panel_color(), PaneColor::Yellow);
    let _ = m.handle_input(&press(KeyCode::Tab), &String::new());
    assert_eq!(m.explorer_color(), PaneColor::Yellow);
    assert_eq!(m.panel_color(), PaneColor::White);
}

#[test]
fn session_opened_fills_snapshot() {
    let mut m = AppStatePlayer::new(true);
    m.start();
    m.session_opened(TrackMeta {
        full_title: "dir/song.flac".to_string(),
        title: "Song".to_string(),
        artist: "Artist".to_string(),
        album: "Album".to_string(),
        genre: "Genre".to_string(),
        sample_rate: Some(44100),
        total_duration_millis: 225_000,
    });
    let snap = m.snapshot_or_default();
    assert_eq!(snap.full_title, "dir/song.flac");
    assert_eq!(snap.file_name, "Song");
    assert_eq!(snap.artist, "Artist");
    assert_eq!(snap.album, "Album");
    assert_eq!(snap.genre, "Genre");
    assert_eq!(snap.sample_rate, "44100k");
    assert_eq!(snap.total_millis, 225_000);
    assert_eq!(snap.current_millis, 0);
    assert!(snap.debug);
}

#[test]
fn toggle_switches_panes() {
    let mut which = PlayerSelection::FileExplorer;
    which.toggle();
    assert_eq!(which, PlayerSelection::AudioPlayer);
    which.toggle();
    assert_eq!(which, PlayerSelection::FileExplorer);
}
