//! The parsed command surface, and what the controller runs for each
//! command.
//!
//! Parsing itself happens outside the library; what arrives here are plain
//! values. The three commands: play one file directly, run the full browser
//! player, or edit a file's tags.

use vstd::prelude::*;

verus! {

/// One invocation of the player, already parsed.
#[derive(Debug)]
pub struct Cli {
    pub command: Command,
    pub debug: bool,
}

/// The command given on the command line.
#[derive(Debug)]
pub enum Command {
    /// Play one file directly, optionally through a low-pass or high-pass
    /// filter.
    Play { path: String, low_pass: Option<u32>, high_pass: Option<u32> },
    /// Run the full browser player, rooted at `cwd` when given.
    Player { cwd: Option<String> },
    /// Write tag fields of one file.
    TagWritter {
        path: String,
        title: Option<String>,
        artist: Option<String>,
        album: Option<String>,
        genre: Option<String>,
    },
}

/// What the controller runs for one parsed invocation.
#[derive(Debug)]
pub enum LaunchMode {
    /// Drive the single-track panel loop.
    PlayTrack { path: String, low_pass: Option<u32>, high_pass: Option<u32>, debug: bool },
    /// Drive the full player state machine.
    Browse { cwd: Option<String>, debug: bool },
    /// Run the one-shot tag-editing flow.
    EditTags {
        path: String,
        title: Option<String>,
        artist: Option<String>,
        album: Option<String>,
        genre: Option<String>,
        debug: bool,
    },
}

/// A copy of an optional text field, equal to the original.
fn clone_opt_string(o: &Option<String>) -> (r: Option<String>)
    ensures
        r == *o,
{
    match o {
        Some(s) => Some(s.clone()),
        None => None,
    }
}

impl Cli {
    /// An invocation from its parts.
    pub fn new(command: Command, debug: bool) -> (c: Cli)
        ensures
            c.command == command,
            c.debug == debug,
    {
        Cli { command, debug }
    }

    /// The command given, unchanged.
    pub fn get_command(&self) -> (r: Command)
        ensures
            r == self.command,
    {
        match &self.command {
            Command::Play { path, low_pass, high_pass } => Command::Play {
                path: path.clone(),
                low_pass: *low_pass,
                high_pass: *high_pass,
            },
            Command::Player { cwd } => Command::Player { cwd: clone_opt_string(cwd) },
            Command::TagWritter { path, title, artist, album, genre } => Command::TagWritter {
                path: path.clone(),
                title: clone_opt_string(title),
                artist: clone_opt_string(artist),
                album: clone_opt_string(album),
                genre: clone_opt_string(genre),
            },
        }
    }

    /// Whether diagnostic output was asked for. Display only: it never
    /// changes what the player does.
    pub fn get_debug(&self) -> (r: bool)
        ensures
            r == self.debug,
    {
        self.debug
    }
}

/// The mode the controller runs for `cli`: each command maps to its mode,
/// with the debug flag carried along.
pub fn launch_plan(cli: Cli) -> (m: LaunchMode)
    ensures
        match cli.command {
            Command::Play { path, low_pass, high_pass } => m == (LaunchMode::PlayTrack {
                path,
                low_pass,
                high_pass,
                debug: cli.debug,
            }),
            Command::Player { cwd } => m == (LaunchMode::Browse { cwd, debug: cli.debug }),
            Command::TagWritter { path, title, artist, album, genre } => m
                == (LaunchMode::EditTags {
                path,
                title,
                artist,
                album,
                genre,
                debug: cli.debug,
            }),
        },
{
    let debug = cli.debug;
    match cli.command {
        Command::Play { path, low_pass, high_pass } => LaunchMode::PlayTrack {
            path,
            low_pass,
            high_pass,
            debug,
        },
        Command::Player { cwd } => LaunchMode::Browse { cwd, debug },
        Command::TagWritter { path, title, artist, album, genre } => LaunchMode::EditTags {
            path,
            title,
            artist,
            album,
            genre,
            debug,
        },
    }
}

} // verus!
