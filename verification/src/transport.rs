//! The now-playing panel's state: the display-only snapshot of the loaded
//! track, and the per-frame computations the panel is drawn from.

use crate::display::{
    display_or_none, format_mm_ss, gauge_ratio_permille, spec_field_text, spec_mm_ss,
    spec_ratio_permille,
};
use vstd::prelude::*;

verus! {

/// The colors a pane is highlighted with. `Reset` is the terminal's own
/// default, used before any highlight is chosen.
#[derive(Clone, Copy, PartialEq, Eq, Structural, Debug)]
pub enum PaneColor {
    Reset,
    White,
    Yellow,
}

/// The display-only snapshot of the loaded track: metadata, the playhead,
/// and the total duration, all in plain values. It holds nothing the
/// backend owns; it is filled at session creation and refreshed once per
/// frame.
#[derive(Clone, Debug)]
pub struct AppStatePlay {
    pub running: bool,
    pub full_title: String,
    pub file_name: String,
    pub current_millis: u64,
    pub total_millis: u64,
    pub artist: String,
    pub album: String,
    pub genre: String,
    pub sample_rate: String,
    pub debug: bool,
    pub color: PaneColor,
}

impl AppStatePlay {
    /// All fields at their defaults: no track, zero durations, empty text.
    pub open spec fn is_default(&self) -> bool {
        &&& !self.running
        &&& self.full_title@ == Seq::<char>::empty()
        &&& self.file_name@ == Seq::<char>::empty()
        &&& self.current_millis == 0
        &&& self.total_millis == 0
        &&& self.artist@ == Seq::<char>::empty()
        &&& self.album@ == Seq::<char>::empty()
        &&& self.genre@ == Seq::<char>::empty()
        &&& self.sample_rate@ == Seq::<char>::empty()
        &&& !self.debug
        &&& self.color == PaneColor::Reset
    }
}

impl Default for AppStatePlay {
    /// The empty snapshot shown while no track is loaded.
    fn default() -> (d: Self)
        ensures
            d.is_default(),
    {
        AppStatePlay {
            running: false,
            full_title: String::new(),
            file_name: String::new(),
            current_millis: 0,
            total_millis: 0,
            artist: String::new(),
            album: String::new(),
            genre: String::new(),
            sample_rate: String::new(),
            debug: false,
            color: PaneColor::Reset,
        }
    }
}

impl AppStatePlay {
    /// A copy of the snapshot, equal to the original.
    pub fn duplicate(&self) -> (r: AppStatePlay)
        ensures
            r == *self,
    {
        AppStatePlay {
            running: self.running,
            full_title: self.full_title.clone(),
            file_name: self.file_name.clone(),
            current_millis: self.current_millis,
            total_millis: self.total_millis,
            artist: self.artist.clone(),
            album: self.album.clone(),
            genre: self.genre.clone(),
            sample_rate: self.sample_rate.clone(),
            debug: self.debug,
            color: self.color,
        }
    }

    /// Set the pane's highlight color.
    pub fn set_color(&mut self, c: PaneColor)
        ensures
            *final(self) == (AppStatePlay { color: c, ..*old(self) }),
    {
        self.color = c;
    }

    /// Switch diagnostic output on or off; display only, never control flow.
    pub fn set_debug(&mut self, debug: bool)
        ensures
            *final(self) == (AppStatePlay { debug, ..*old(self) }),
    {
        self.debug = debug;
    }

    /// Set the full title shown over the gauge: the selected path's name.
    pub fn set_full_title(&mut self, title: String)
        ensures
            *final(self) == (AppStatePlay { full_title: title, ..*old(self) }),
    {
        self.full_title = title;
    }

    /// Set the track title read from the file's tags.
    pub fn set_filename(&mut self, filename: String)
        ensures
            *final(self) == (AppStatePlay { file_name: filename, ..*old(self) }),
    {
        self.file_name = filename;
    }

    /// Set the artist read from the file's tags.
    pub fn set_artist(&mut self, artist: String)
        ensures
            *final(self) == (AppStatePlay { artist, ..*old(self) }),
    {
        self.artist = artist;
    }

    /// Set the album read from the file's tags.
    pub fn set_album(&mut self, album: String)
        ensures
            *final(self) == (AppStatePlay { album, ..*old(self) }),
    {
        self.album = album;
    }

    /// Set the genre read from the file's tags.
    pub fn set_genre(&mut self, genre: String)
        ensures
            *final(self) == (AppStatePlay { genre, ..*old(self) }),
    {
        self.genre = genre;
    }

    /// Set the sample-rate label shown in the panel.
    pub fn set_sample_rate(&mut self, sample_rate: String)
        ensures
            *final(self) == (AppStatePlay { sample_rate, ..*old(self) }),
    {
        self.sample_rate = sample_rate;
    }

    /// Set the total duration of the loaded track.
    pub fn set_total_duration(&mut self, total_millis: u64)
        ensures
            *final(self) == (AppStatePlay { total_millis, ..*old(self) }),
    {
        self.total_millis = total_millis;
    }

    /// Take the position polled from the live session this frame.
    pub fn refresh(&mut self, position_millis: u64)
        ensures
            *final(self) == (AppStatePlay { current_millis: position_millis, ..*old(self) }),
    {
        self.current_millis = position_millis;
    }

    /// Leave the frame loop; the next frame check sees a stopped panel.
    pub fn stop(&mut self)
        ensures
            *final(self) == (AppStatePlay { running: false, ..*old(self) }),
    {
        self.running = false;
    }

    /// One frame of the single-track loop, before input is read: take the
    /// polled playhead, and stop once the backend reports its queue empty.
    pub fn play_frame(&mut self, position_millis: u64, queue_empty: bool)
        ensures
            *final(self) == (AppStatePlay {
                running: old(self).running && !queue_empty,
                current_millis: position_millis,
                ..*old(self)
            }),
    {
        if queue_empty {
            self.running = false;
        }
        self.current_millis = position_millis;
    }

    /// The gauge's filled share in permille of its width. Entirely integral:
    /// a track without a known duration shows an empty gauge.
    pub fn gauge_ratio(&self) -> (r: u32)
        ensures
            r == spec_ratio_permille(self.current_millis as int, self.total_millis as int),
            r <= 1000,
            self.total_millis == 0 ==> r == 0,
    {
        gauge_ratio_permille(self.current_millis, self.total_millis)
    }

    /// The line over the gauge: the full title, then elapsed and total time
    /// as `MM:SS`.
    pub fn title_line(&self) -> (r: String)
        ensures
            r@ == self.full_title@ + " - "@ + spec_mm_ss((self.current_millis / 1000) as int)
                + "/"@ + spec_mm_ss((self.total_millis / 1000) as int),
    {
        proof {
            reveal_strlit(" - ");
            reveal_strlit("/");
        }
        let mut s = self.full_title.clone();
        s.append(" - ");
        let cur = format_mm_ss(self.current_millis / 1000);
        s.append(cur.as_str());
        s.append("/");
        let total = format_mm_ss(self.total_millis / 1000);
        s.append(total.as_str());
        s
    }

    /// The panel's text: one line per metadata field, empty fields shown as
    /// a placeholder, and the total duration as `MM:SS`.
    pub fn info_lines(&self) -> (r: Vec<String>)
        ensures
            r@.len() == 6,
            r@[0]@ == "Title: "@ + spec_field_text(self.file_name@),
            r@[1]@ == "Artist: "@ + spec_field_text(self.artist@),
            r@[2]@ == "Album: "@ + spec_field_text(self.album@),
            r@[3]@ == "Genre: "@ + spec_field_text(self.genre@),
            r@[4]@ == "Sample Rate: "@ + spec_field_text(self.sample_rate@),
            r@[5]@ == "Total Duration: "@ + spec_mm_ss((self.total_millis / 1000) as int),
    {
        proof {
            reveal_strlit("Title: ");
            reveal_strlit("Artist: ");
            reveal_strlit("Album: ");
            reveal_strlit("Genre: ");
            reveal_strlit("Sample Rate: ");
            reveal_strlit("Total Duration: ");
        }
        let mut lines: Vec<String> = Vec::new();
        let mut line = String::from_str("Title: ");
        let text = display_or_none(&self.file_name);
        line.append(text.as_str());
        lines.push(line);
        let mut line = String::from_str("Artist: ");
        let text = display_or_none(&self.artist);
        line.append(text.as_str());
        lines.push(line);
        let mut line = String::from_str("Album: ");
        let text = display_or_none(&self.album);
        line.append(text.as_str());
        lines.push(line);
        let mut line = String::from_str("Genre: ");
        let text = display_or_none(&self.genre);
        line.append(text.as_str());
        lines.push(line);
        let mut line = String::from_str("Sample Rate: ");
        let text = display_or_none(&self.sample_rate);
        line.append(text.as_str());
        lines.push(line);
        let mut line = String::from_str("Total Duration: ");
        let total = format_mm_ss(self.total_millis / 1000);
        line.append(total.as_str());
        lines.push(line);
        lines
    }
}

} // verus!
