use tui_audio::input::{dispatch, Dispatch, InputEvent, KeyCode, KeyEvent, NavCmd, TransportCmd};
use tui_audio::machine::PlayerSelection;

fn press(code: KeyCode) -> InputEvent {
    InputEvent::Key(KeyEvent { code, is_press: true, shift: false })
}

fn shift_press(code: KeyCode) -> InputEvent {
    InputEvent::Key(KeyEvent { code, is_press: true, shift: true })
}

fn release(code: KeyCode) -> InputEvent {
    InputEvent::Key(KeyEvent { code, is_press: false, shift: false })
}

#[test]
fn browser_commands() {
    let b = PlayerSelection::FileExplorer;
    assert!(matches!(dispatch(b, false, &press(KeyCode::Char('q'))), Dispatch::Nav(NavCmd::Quit)));
    assert!(matches!(dispatch(b, true, &press(KeyCode::Char('q'))), Dispatch::Nav(NavCmd::Quit)));
    assert!(matches!(
        dispatch(b, true, &press(KeyCode::Tab)),
        Dispatch::Nav(NavCmd::SwitchPane)
    ));
    assert!(matches!(
        dispatch(b, false, &press(KeyCode::Enter)),
        Dispatch::Nav(NavCmd::ConfirmSelection)
    ));
}

#[test]
fn switch_pane_needs_a_session() {
    let b = PlayerSelection::FileExplorer;
    assert!(matches!(dispatch(b, false, &press(KeyCode::Tab)), Dispatch::Forward));
}

#[test]
fn unrecognized_browser_events_are_forwarded() {
    let b = PlayerSelection::FileExplorer;
    assert!(matches!(dispatch(b, true, &press(KeyCode::Up)), Dispatch::Forward));
    assert!(matches!(dispatch(b, true, &press(KeyCode::Char('x'))), Dispatch::Forward));
    assert!(matches!(dispatch(b, true, &release(KeyCode::Enter)), Dispatch::Forward));
    assert!(matches!(dispatch(b, true, &InputEvent::Other), Dispatch::Forward));
}

#[test]
fn transport_keys_in_playback() {
    let p = PlayerSelection::AudioPlayer;
    assert!(matches!(
        dispatch(p, true, &press(KeyCode::Enter)),
        Dispatch::Transport(TransportCmd::TogglePause)
    ));
    assert!(matches!(
        dispatch(p, true, &press(KeyCode::Right)),
        Dispatch::Transport(TransportCmd::SeekForward)
    ));
    assert!(matches!(
        dispatch(p, true, &press(KeyCode::Left)),
        Dispatch::Transport(TransportCmd::Rewind)
    ));
    assert!(matches!(
        dispatch(p, true, &press(KeyCode::Up)),
        Dispatch::Transport(TransportCmd::VolumeUp)
    ));
    assert!(matches!(
        dispatch(p, true, &press(KeyCode::Down)),
        Dispatch::Transport(TransportCmd::VolumeDown)
    ));
    assert!(matches!(
        dispatch(p, true, &shift_press(KeyCode::Up)),
        Dispatch::Transport(TransportCmd::SpeedUp)
    ));
    assert!(matches!(
        dispatch(p, true, &shift_press(KeyCode::Down)),
        Dispatch::Transport(TransportCmd::SpeedDown)
    ));
}

#[test]
fn playback_quit_and_switch() {
    let p = PlayerSelection::AudioPlayer;
    assert!(matches!(dispatch(p, true, &press(KeyCode::Char('q'))), Dispatch::Nav(NavCmd::Quit)));
    assert!(matches!(
        dispatch(p, true, &press(KeyCode::Tab)),
        Dispatch::Nav(NavCmd::SwitchPane)
    ));
}

#[test]
fn no_transport_without_session() {
    let p = PlayerSelection::AudioPlayer;
    assert!(matches!(dispatch(p, false, &press(KeyCode::Enter)), Dispatch::Ignore));
    assert!(matches!(dispatch(p, false, &press(KeyCode::Up)), Dispatch::Ignore));
    assert!(matches!(dispatch(p, false, &press(KeyCode::Char('q'))), Dispatch::Ignore));
}

#[test]
fn unrecognized_playback_events_are_ignored() {
    let p = PlayerSelection::AudioPlayer;
    assert!(matches!(dispatch(p, true, &release(KeyCode::Enter)), Dispatch::Ignore));
    assert!(matches!(dispatch(p, true, &press(KeyCode::Char('x'))), Dispatch::Ignore));
    assert!(matches!(dispatch(p, true, &InputEvent::Other), Dispatch::Ignore));
    assert!(matches!(dispatch(p, true, &shift_press(KeyCode::Right)), Dispatch::Transport(TransportCmd::SeekForward)));
}
