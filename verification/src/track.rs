//! What the bot knows of a track when it talks about one.
use vstd::prelude::*;
use vstd::string::*;
use std::time::Duration;
use crate::utils::{duration_text, duration_whole_secs, format_duration, format_duration_secs};

verus! {

/// A track as the audio server describes it: who made it, its title, and where it lives.
#[derive(Debug, Clone)]
pub struct TrackInfo {
    pub author: String,
    pub title: String,
    pub uri: Option<String>,
}

/// How a message names a track: `author - title`, linked to its address when it has one.
pub open spec fn track_label(t: TrackInfo) -> Seq<char> {
    match t.uri {
        Some(u) => "["@ + t.author@ + " - "@ + t.title@ + "](<"@ + u@ + ">)"@,
        None => t.author@ + " - "@ + t.title@,
    }
}

impl TrackInfo {
    /// How a message names this track.
    pub fn label(&self) -> (s: String)
        ensures
            s@ == track_label(*self),
    {
        match &self.uri {
            Some(u) => {
                let mut s = String::from_str("[");
                s.append(self.author.as_str());
                s.append(" - ");
                s.append(self.title.as_str());
                s.append("](<");
                s.append(u.as_str());
                s.append(">)");
                s
            },
            None => {
                let mut s = String::from_str(self.author.as_str());
                s.append(" - ");
                s.append(self.title.as_str());
                s
            },
        }
    }
}

/// What the voice client knows of a queued song: maybe its title, maybe its length.
#[derive(Debug, Clone)]
pub struct SongMetadata {
    pub title: Option<String>,
    pub duration: Option<Duration>,
}

/// The title shown for a song, with the given fallback when it has none.
pub open spec fn title_or(title: Option<String>, fallback: Seq<char>) -> Seq<char> {
    match title {
        Some(t) => t@,
        None => fallback,
    }
}

/// The length shown for a song: its duration, or zero seconds when it has none.
pub open spec fn length_text(duration: Option<Duration>) -> Seq<char> {
    match duration {
        Some(d) => duration_text(duration_whole_secs(d) as nat),
        None => duration_text(0),
    }
}

/// The title of a song, or the given fallback when it has none.
pub fn title_or_else(title: &Option<String>, fallback: &str) -> (s: String)
    ensures
        s@ == title_or(*title, fallback@),
{
    match title {
        Some(t) => t.clone(),
        None => String::from_str(fallback),
    }
}

impl SongMetadata {
    /// The length of the song as a clock, zero when unknown.
    pub fn length(&self) -> (s: String)
        ensures
            s@ == length_text(self.duration),
    {
        match &self.duration {
            Some(d) => format_duration(*d),
            None => format_duration_secs(0),
        }
    }
}

} // verus!
