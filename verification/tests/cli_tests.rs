use tui_audio::cli::{launch_plan, Cli, Command, LaunchMode};

#[test]
fn getters_return_what_was_given() {
    let cli = Cli::new(
        Command::Play {
            path: "a.mp3".to_string(),
            low_pass: Some(200),
            high_pass: None,
        },
        true,
    );
    assert!(cli.get_debug());
    match cli.get_command() {
        Command::Play { path, low_pass, high_pass } => {
            assert_eq!(path, "a.mp3");
            assert_eq!(low_pass, Some(200));
            assert_eq!(high_pass, None);
        }
        other => panic!("wrong command: {:?}", other),
    }
}

#[test]
fn play_command_launches_single_track() {
    let cli = Cli::new(
        Command::Play {
            path: "a.mp3".to_string(),
            low_pass: None,
            high_pass: Some(4000),
        },
        false,
    );
    match launch_plan(cli) {
        LaunchMode::PlayTrack { path, low_pass, high_pass, debug } => {
            assert_eq!(path, "a.mp3");
            assert_eq!(low_pass, None);
            assert_eq!(high_pass, Some(4000));
            assert!(!debug);
        }
        other => panic!("wrong mode: {:?}", other),
    }
}

#[test]
fn player_command_launches_browser() {
    let cli = Cli::new(Command::Player { cwd: Some("/music".to_string()) }, true);
    match launch_plan(cli) {
        LaunchMode::Browse { cwd, debug } => {
            assert_eq!(cwd, Some("/music".to_string()));
            assert!(debug);
        }
        other => panic!("wrong mode: {:?}", other),
    }
}

#[test]
fn tag_command_launches_editor() {
    let cli = Cli::new(
        Command::TagWritter {
            path: "a.mp3".to_string(),
            title: Some("T".to_string()),
            artist: None,
            album: Some("Al".to_string()),
            genre: None,
        },
        false,
    );
    match launch_plan(cli) {
        LaunchMode::EditTags { path, title, artist, album, genre, debug } => {
            assert_eq!(path, "a.mp3");
            assert_eq!(title, Some("T".to_string()));
            assert_eq!(artist, None);
            assert_eq!(album, Some("Al".to_string()));
            assert_eq!(genre, None);
            assert!(!debug);
        }
        other => panic!("wrong mode: {:?}", other),
    }
}
