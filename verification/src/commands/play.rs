//! `-play`: what to search for, which loaded tracks to queue, what to answer, and
//! when to start playing.
use vstd::prelude::*;
use vstd::string::*;
use lavalink_rs::error::LavalinkError;
use lavalink_rs::model::search::SearchEngines;
use crate::track::{TrackInfo, SongMetadata, track_label, title_or, length_text, title_or_else};
use crate::utils::starts_with;
use super::{AvailableCommands, description_text};

verus! {

/// `-play`: plays a song or adds it to the queue.
#[derive(Debug, Clone)]
pub struct Play;

impl Play {
    /// The description of this command in the help text.
    pub fn description() -> (d: String)
        ensures
            d@ == description_text(AvailableCommands::Play),
    {
        String::from_str("**-play**: Play a song in the voice channel you are connected in.")
    }
}

/// Declares `lavalink_rs::error::LavalinkError`, the audio client's error.
#[verifier::external_type_specification]
#[verifier::external_body]
pub struct ExLavalinkError(LavalinkError);

/// Trusted: `SearchEngines::YouTube.to_query`. Its source formats the engine's prefix
/// `ytsearch`, a colon and the term, and returns it in `Ok`, with no other branch for
/// `YouTube`; the contract claims exactly that.
#[verifier::external_body]
fn youtube_query(term: &str) -> (r: Result<String, LavalinkError>)
    ensures
        r is Ok,
        r matches Ok(q) ==> q@ == "ytsearch:"@ + term@,
{
    SearchEngines::YouTube.to_query(term)
}

/// The query that a search term becomes: an address is loaded as it is, anything else
/// is searched for on YouTube.
pub open spec fn search_query_text(term: Seq<char>) -> Seq<char> {
    if is_address(term) {
        term
    } else {
        "ytsearch:"@ + term
    }
}

/// Law: a search term is loaded as it is exactly when its first four characters are
/// `http`; every other term is searched for on YouTube, behind the `ytsearch:` prefix.
pub proof fn lemma_search_query_by_prefix(term: Seq<char>)
    ensures
        term.len() >= 4 && term.subrange(0, 4) == "http"@ ==> search_query_text(term) == term,
        !(term.len() >= 4 && term.subrange(0, 4) == "http"@) ==> search_query_text(term)
            == "ytsearch:"@ + term,
{
    reveal_strlit("http");
}

/// Whether a term is taken for an address: it starts with `http`.
pub open spec fn is_address(term: Seq<char>) -> bool {
    "http"@.len() <= term.len() && term.subrange(0, "http"@.len() as int) == "http"@
}

/// What loading a query gave.
#[derive(Debug, Clone)]
pub enum LoadedTracks {
    /// One track.
    Track(TrackInfo),
    /// The results of a search, best first.
    Search(Vec<TrackInfo>),
    /// A playlist: its name and its tracks.
    Playlist(String, Vec<TrackInfo>),
    /// Nothing that can be queued (an error, or no match).
    Nothing,
}

/// Which loaded tracks to queue, and what to announce.
#[derive(Debug, Clone)]
pub struct EnqueuePlan {
    /// How many tracks to queue, taken from the front of what was loaded.
    pub take: usize,
    /// The announcement.
    pub message: String,
}

/// The number of loaded tracks that are queued.
pub open spec fn tracks_taken(loaded: LoadedTracks) -> nat {
    match loaded {
        LoadedTracks::Playlist(_, tracks) => tracks@.len(),
        _ => 1,
    }
}

/// The announcement of what was queued.
pub open spec fn added_text(loaded: LoadedTracks) -> Seq<char> {
    match loaded {
        LoadedTracks::Track(t) => "Added to queue: "@ + track_label(t),
        LoadedTracks::Search(ts) => "Added to queue: "@ + track_label(ts@[0]),
        LoadedTracks::Playlist(name, _) => "Added playlist to queue: "@ + name@,
        LoadedTracks::Nothing => Seq::empty(),
    }
}

/// The reply to `-play` once the voice client queued the song: its title in bold, its
/// length in code, then a row of seven emoji.
pub open spec fn playing_text(song: SongMetadata, emoji: Seq<char>) -> Seq<char> {
    "Playing "@ + "**"@ + title_or(song.title, "idk lmfao"@) + "**"@ + " ("@ + "`"@ + length_text(
        song.duration,
    ) + "`"@ + ")"@ + "\n"@ + emoji + emoji + emoji + emoji + emoji + emoji + emoji
}

/// Why `-play` could not queue and announce a song on the voice client.
#[derive(Debug, Clone, Copy, PartialEq, Eq, Structural)]
pub enum PlayFailure {
    /// The search found no source to play.
    NoSource,
    /// The emoji that decorates the reply is not known in the guild.
    UnknownEmoji,
    /// The bot is in no voice channel to play in.
    NoVoiceChannel,
}

/// The reply to each failure of `-play` on the voice client.
pub open spec fn failure_text(f: PlayFailure) -> Seq<char> {
    match f {
        PlayFailure::NoSource => "Error sourcing url"@,
        PlayFailure::UnknownEmoji => "bruh idk what emoji that is"@,
        PlayFailure::NoVoiceChannel => "Not in a voice channel to play in"@,
    }
}

/// The search words joined by single spaces.
pub open spec fn joined_words(words: Seq<String>) -> Seq<char>
    decreases words.len(),
{
    if words.len() == 0 {
        Seq::empty()
    } else if words.len() == 1 {
        words[0]@
    } else {
        joined_words(words.drop_last()) + " "@ + words.last()@
    }
}

impl Play {
    /// The query that a search term becomes.
    pub fn search_query(term: &str) -> (q: String)
        ensures
            q@ == search_query_text(term@),
            term@.len() >= 4 && term@.subrange(0, 4) == "http"@ ==> q@ == term@,
            !(term@.len() >= 4 && term@.subrange(0, 4) == "http"@) ==> q@ == "ytsearch:"@
                + term@,
    {
        proof {
            reveal_strlit("http");
        }
        if starts_with(term, "http") {
            String::from_str(term)
        } else {
            match youtube_query(term) {
                Ok(q) => q,
                Err(_) => {
                    proof {
                        assert(false);
                    }
                    String::from_str(term)
                },
            }
        }
    }

    /// Which loaded tracks to queue and what to announce; `None` when nothing loaded.
    /// A search that found nothing is not accepted.
    pub fn plan_enqueue(loaded: &LoadedTracks) -> (r: Option<EnqueuePlan>)
        requires
            loaded matches LoadedTracks::Search(ts) ==> ts@.len() > 0,
        ensures
            (*loaded is Nothing) <==> r is None,
            r matches Some(p) ==> p.take == tracks_taken(*loaded) && p.message@ == added_text(
                *loaded,
            ),
    {
        match loaded {
            LoadedTracks::Track(t) => {
                let mut m = String::from_str("Added to queue: ");
                let l = t.label();
                m.append(l.as_str());
                Some(EnqueuePlan { take: 1, message: m })
            },
            LoadedTracks::Search(ts) => {
                let mut m = String::from_str("Added to queue: ");
                let l = ts[0].label();
                m.append(l.as_str());
                Some(EnqueuePlan { take: 1, message: m })
            },
            LoadedTracks::Playlist(name, tracks) => {
                let mut m = String::from_str("Added playlist to queue: ");
                m.append(name.as_str());
                Some(EnqueuePlan { take: tracks.len(), message: m })
            },
            LoadedTracks::Nothing => None,
        }
    }

    /// The reply to a failure of `-play` on the voice client.
    pub fn failure_reply(f: PlayFailure) -> (r: String)
        ensures
            r@ == failure_text(f),
    {
        match f {
            PlayFailure::NoSource => String::from_str("Error sourcing url"),
            PlayFailure::UnknownEmoji => String::from_str("bruh idk what emoji that is"),
            PlayFailure::NoVoiceChannel => String::from_str("Not in a voice channel to play in"),
        }
    }

    /// The reply when the bot has no player in the guild, even after trying to join.
    pub fn no_player_reply() -> (r: String)
        ensures
            r@ == "Join the bot to a voice channel first."@,
    {
        String::from_str("Join the bot to a voice channel first.")
    }

    /// The reply to `-play` without a search when there is nothing to start.
    pub fn empty_queue_reply() -> (r: String)
        ensures
            r@ == "The queue is empty."@,
    {
        String::from_str("The queue is empty.")
    }

    /// Whether to start playback: nothing plays and the queue has a track.
    pub fn should_start(player_has_track: bool, queue_has_track: bool) -> (r: bool)
        ensures
            r == (!player_has_track && queue_has_track),
    {
        !player_has_track && queue_has_track
    }

    /// Whether to start playback after queueing: only when the bot was already in the
    /// channel before this command, nothing plays, and the queue has a track.
    pub fn start_after_enqueue(has_joined: bool, player_has_track: bool, queue_has_track: bool) -> (r:
        bool)
        ensures
            r == (!has_joined && !player_has_track && queue_has_track),
    {
        !has_joined && Play::should_start(player_has_track, queue_has_track)
    }

    /// The search of a prefix `-play` from its argument words: the words joined by
    /// spaces, refused with the reply `Cannot be a url` when it is an address.
    pub fn words_search(words: &Vec<String>) -> (r: Result<String, String>)
        ensures
            match r {
                Ok(s) => s@ == joined_words(words@) && !is_address(s@),
                Err(e) => is_address(joined_words(words@)) && e@ == "Cannot be a url"@,
            },
            r is Err <==> (joined_words(words@).len() >= 4 && joined_words(words@).subrange(0, 4)
                == "http"@),
    {
        proof {
            reveal_strlit("http");
        }
        let mut s = String::new();
        let mut i: usize = 0;
        while i < words.len()
            invariant
                i <= words.len(),
                s@ == joined_words(words@.take(i as int)),
            decreases words.len() - i,
        {
            if i > 0 {
                s.append(" ");
            }
            s.append(words[i].as_str());
            assert(words@.take(i + 1).drop_last() =~= words@.take(i as int));
            i = i + 1;
        }
        assert(words@.take(i as int) =~= words@);
        if starts_with(s.as_str(), "http") {
            Err(String::from_str("Cannot be a url"))
        } else {
            Ok(s)
        }
    }

    /// The reply to `-play` once the voice client queued the song.
    pub fn playing_reply(song: &SongMetadata, emoji: &str) -> (r: String)
        ensures
            r@ == playing_text(*song, emoji@),
    {
        let mut r = String::from_str("Playing ");
        r.append("**");
        let title = title_or_else(&song.title, "idk lmfao");
        r.append(title.as_str());
        r.append("**");
        r.append(" (");
        r.append("`");
        let length = song.length();
        r.append(length.as_str());
        r.append("`");
        r.append(")");
        r.append("\n");
        r.append(emoji);
        r.append(emoji);
        r.append(emoji);
        r.append(emoji);
        r.append(emoji);
        r.append(emoji);
        r.append(emoji);
        r
    }
}

} // verus!
