//! `-skip`: when a song can be skipped and what the bot answers.
use vstd::prelude::*;
use vstd::string::*;
use crate::track::{title_or, title_or_else};
use super::{AvailableCommands, description_text};

verus! {

/// `-skip`: skips the current song.
#[derive(Debug, Clone)]
pub struct Skip;

impl Skip {
    /// The description of this command in the help text.
    pub fn description() -> (d: String)
        ensures
            d@ == description_text(AvailableCommands::Skip),
    {
        String::from_str("**-skip**: skips the current song that im playing")
    }
}

/// Why a song could not be skipped.
pub open spec fn skip_refusal(has_current: bool, has_metadata: bool) -> Option<Seq<char>> {
    if !has_current {
        Some("No song is playing to skip"@)
    } else if !has_metadata {
        Some("No metadata found"@)
    } else {
        None
    }
}

impl Skip {
    /// Whether the current song can be skipped: a song must play and carry its metadata.
    pub fn check(has_current: bool, has_metadata: bool) -> (r: Result<(), String>)
        ensures
            match r {
                Ok(_) => skip_refusal(has_current, has_metadata) is None,
                Err(e) => skip_refusal(has_current, has_metadata) == Some(e@),
            },
    {
        if !has_current {
            Err(String::from_str("No song is playing to skip"))
        } else if !has_metadata {
            Err(String::from_str("No metadata found"))
        } else {
            Ok(())
        }
    }

    /// The reply once a song is skipped, naming it (`song` when it has no title).
    pub fn skipped_reply(title: &Option<String>) -> (r: String)
        ensures
            r@ == "Skipped **"@ + title_or(*title, "song"@) + "**\n"@,
    {
        let mut r = String::from_str("Skipped **");
        let t = title_or_else(title, "song");
        r.append(t.as_str());
        r.append("**\n");
        r
    }

    /// The reply to `-skip` on the voice client's queue: the skipped song's title (empty
    /// when unknown) if the skip went through, otherwise that there was nothing to skip.
    pub fn skip_outcome_reply(title: &Option<String>, skipped: bool) -> (r: String)
        ensures
            skipped ==> r@ == "Skipped **"@ + title_or(*title, ""@) + "**"@,
            !skipped ==> r@ == "There are no songs to skip"@,
    {
        if skipped {
            let mut r = String::from_str("Skipped **");
            let t = title_or_else(title, "");
            r.append(t.as_str());
            r.append("**");
            r
        } else {
            String::from_str("There are no songs to skip")
        }
    }

    /// The reply when the bot holds no queue in the guild.
    pub fn no_queue_reply() -> (r: String)
        ensures
            r@ == "Queue is currently empty"@,
    {
        String::from_str("Queue is currently empty")
    }
}

} // verus!
