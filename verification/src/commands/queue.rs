//! `-queue`: the text that shows what plays and what comes next.
use vstd::prelude::*;
use vstd::string::*;
use crate::track::{TrackInfo, SongMetadata, track_label, title_or, length_text, title_or_else};
use crate::utils::{decimal, two_digits, push_decimal, show_double_digits};
use super::{AvailableCommands, description_text};

verus! {

/// `-queue`: shows the queue.
#[derive(Debug, Clone)]
pub struct Queue;

impl Queue {
    /// The description of this command in the help text.
    pub fn description() -> (d: String)
        ensures
            d@ == description_text(AvailableCommands::Queue),
    {
        String::from_str("**-queue**: Add a song to the queue")
    }
}

/// The most queued tracks that the queue text lists.
pub const MAX_LISTED: usize = 9;

/// The track that plays, and how far into it the player is, in milliseconds.
#[derive(Debug, Clone)]
pub struct NowPlaying {
    pub track: TrackInfo,
    pub position_ms: u64,
}

/// The position within a track as `MM:SS`.
pub open spec fn position_text(position_ms: nat) -> Seq<char> {
    two_digits(position_ms / 1000 / 60) + ":"@ + two_digits(position_ms / 1000 % 60)
}

/// The line about what plays.
pub open spec fn now_playing_text(now: Option<NowPlaying>) -> Seq<char> {
    match now {
        Some(p) => "Now playing: "@ + track_label(p.track) + " | "@ + position_text(
            p.position_ms as nat,
        ),
        None => "Now playing: nothing"@,
    }
}

/// The line of the queued track at position `idx`, counted from zero.
pub open spec fn queue_line(idx: nat, t: TrackInfo) -> Seq<char> {
    decimal(idx + 1) + " -> "@ + track_label(t)
}

/// How many queued tracks are listed: at most nine, and no more than the queue reports
/// or holds.
pub open spec fn listed_count(count: nat, held: nat) -> nat {
    let m = if count < 9 { count } else { 9 };
    if m < held {
        m
    } else {
        held
    }
}

/// The lines of the first `n` queued tracks, separated by line breaks.
pub open spec fn queue_lines(tracks: Seq<TrackInfo>, n: nat) -> Seq<char>
    decreases n,
{
    if n == 0 {
        Seq::empty()
    } else if n == 1 {
        queue_line(0, tracks[0])
    } else {
        queue_lines(tracks, (n - 1) as nat) + "\n"@ + queue_line((n - 1) as nat, tracks[n - 1])
    }
}

/// The whole text of `-queue`.
pub open spec fn queue_text(now: Option<NowPlaying>, tracks: Seq<TrackInfo>, count: nat) -> Seq<
    char,
> {
    now_playing_text(now) + "\n\n"@ + queue_lines(tracks, listed_count(count, tracks.len()))
}

/// The line of a song of the voice client's queue: its number, its title in bold and
/// its length in code.
pub open spec fn song_line(idx: nat, song: SongMetadata) -> Seq<char> {
    decimal(idx + 1) + ": **"@ + title_or(song.title, "idk lmfao"@) + "** (`"@ + length_text(
        song.duration,
    ) + "`)\n"@
}

/// The listing of the voice client's queue: one line per song, each ending in a line
/// break.
pub open spec fn song_listing_text(songs: Seq<SongMetadata>) -> Seq<char>
    decreases songs.len(),
{
    if songs.len() == 0 {
        Seq::empty()
    } else {
        song_listing_text(songs.drop_last()) + song_line(
            (songs.len() - 1) as nat,
            songs.last(),
        )
    }
}

impl Queue {
    /// The line about what plays.
    pub fn now_playing(now: &Option<NowPlaying>) -> (s: String)
        ensures
            s@ == now_playing_text(*now),
    {
        match now {
            Some(p) => {
                let mut s = String::from_str("Now playing: ");
                let l = p.track.label();
                s.append(l.as_str());
                s.append(" | ");
                let m = show_double_digits(p.position_ms / 1000 / 60);
                s.append(m.as_str());
                s.append(":");
                let sec = show_double_digits(p.position_ms / 1000 % 60);
                s.append(sec.as_str());
                s
            },
            None => String::from_str("Now playing: nothing"),
        }
    }

    /// The lines of the queued tracks that are listed; `count` is the number of tracks
    /// that the queue reports.
    pub fn listing(tracks: &Vec<TrackInfo>, count: usize) -> (s: String)
        ensures
            s@ == queue_lines(tracks@, listed_count(count as nat, tracks@.len())),
    {
        let max = if count < MAX_LISTED {
            count
        } else {
            MAX_LISTED
        };
        let n = if max < tracks.len() {
            max
        } else {
            tracks.len()
        };
        let mut s = String::new();
        let mut i: usize = 0;
        while i < n
            invariant
                n <= tracks@.len(),
                n <= 9,
                i <= n,
                s@ == queue_lines(tracks@, i as nat),
            decreases n - i,
        {
            let ghost before = s@;
            if i > 0 {
                s.append("\n");
            }
            push_decimal(&mut s, (i + 1) as u64);
            s.append(" -> ");
            let l = tracks[i].label();
            s.append(l.as_str());
            proof {
                if i == 0 {
                    assert(s@ =~= queue_line(0, tracks@[0]));
                } else {
                    assert(s@ =~= before + "\n"@ + queue_line(i as nat, tracks@[i as int]));
                }
            }
            i = i + 1;
        }
        s
    }

    /// The whole text of `-queue`.
    pub fn message(now: &Option<NowPlaying>, tracks: &Vec<TrackInfo>, count: usize) -> (s: String)
        ensures
            s@ == queue_text(*now, tracks@, count as nat),
    {
        let mut s = Queue::now_playing(now);
        s.append("\n\n");
        let l = Queue::listing(tracks, count);
        s.append(l.as_str());
        s
    }

    /// The reply when the bot has no player in the guild.
    pub fn no_player_reply() -> (r: String)
        ensures
            r@ == "Join the bot to a voice channel first."@,
    {
        String::from_str("Join the bot to a voice channel first.")
    }

    /// The reply when the bot holds no voice client queue in the guild.
    pub fn no_queue_reply() -> (r: String)
        ensures
            r@ == "Queue is currently empty"@,
    {
        String::from_str("Queue is currently empty")
    }

    /// The listing of the songs in the voice client's queue.
    pub fn song_listing(songs: &Vec<SongMetadata>) -> (s: String)
        ensures
            s@ == song_listing_text(songs@),
    {
        let mut s = String::new();
        let mut i: usize = 0;
        while i < songs.len()
            invariant
                i <= songs.len(),
                s@ == song_listing_text(songs@.take(i as int)),
            decreases songs.len() - i,
        {
            let ghost before = s@;
            push_decimal(&mut s, (i + 1) as u64);
            s.append(": **");
            let t = title_or_else(&songs[i].title, "idk lmfao");
            s.append(t.as_str());
            s.append("** (`");
            let d = songs[i].length();
            s.append(d.as_str());
            s.append("`)\n");
            proof {
                let prefix = songs@.take(i + 1);
                assert(prefix.drop_last() =~= songs@.take(i as int));
                assert(prefix.last() == songs@[i as int]);
                assert(s@ =~= before + song_line(i as nat, songs@[i as int]));
            }
            i = i + 1;
        }
        assert(songs@.take(i as int) =~= songs@);
        s
    }
}

/// Law: the queue text lists exactly the least of nine, the number of tracks the queue
/// reports and the number it holds: never more than any of them, and always one of them.
pub proof fn lemma_listing_bounded(count: nat, held: nat)
    ensures
        listed_count(count, held) <= 9,
        listed_count(count, held) <= held,
        listed_count(count, held) <= count,
        listed_count(count, held) == 9 || listed_count(count, held) == count || listed_count(
            count,
            held,
        ) == held,
        count >= 9 && held >= 9 ==> listed_count(count, held) == 9,
{
}

} // verus!
