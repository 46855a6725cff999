//! `-leave`: what the bot says when asked to leave the voice channel.
use vstd::prelude::*;
use vstd::string::*;
use super::{AvailableCommands, description_text};

verus! {

/// `-leave`: leaves the voice channel.
#[derive(Debug, Clone)]
pub struct Leave;

impl Leave {
    /// The description of this command in the help text.
    pub fn description() -> (d: String)
        ensures
            d@ == description_text(AvailableCommands::Leave),
    {
        String::from_str("**-leave**: makes me leave the voice channel _(fuck you)_")
    }
}

/// What `-leave` does first.
#[derive(Debug, Clone, PartialEq, Eq)]
pub enum LeaveStep {
    /// Leave the voice channel, then send the replies of `Leave::replies`.
    Remove,
    /// The bot is in no voice channel: answer the caller with this text.
    Reply(String),
}

/// The messages of `-leave` after the bot tried to leave: the failure, if any, then that
/// it left.
pub open spec fn leave_texts(failure: Option<String>) -> Seq<Seq<char>> {
    match failure {
        Some(f) => seq!["Failed: "@ + f@, "Left voice channel"@],
        None => seq!["Left voice channel"@],
    }
}

impl Leave {
    /// The messages sent after leaving, given the text of the failure to leave, if any.
    pub fn replies(failure: &Option<String>) -> (r: Vec<String>)
        ensures
            r@.len() == leave_texts(*failure).len(),
            forall|i: int| 0 <= i < r@.len() ==> #[trigger] r@[i]@ == leave_texts(*failure)[i],
    {
        let mut r: Vec<String> = Vec::new();
        match failure {
            Some(f) => {
                let mut m = String::from_str("Failed: ");
                m.append(f.as_str());
                r.push(m);
            },
            None => {},
        }
        r.push(String::from_str("Left voice channel"));
        r
    }

    /// What `-leave` does first: leave when the bot is in a voice channel of the guild,
    /// otherwise answer that it is in none.
    pub fn first_step(has_handler: bool) -> (r: LeaveStep)
        ensures
            has_handler ==> r is Remove,
            !has_handler ==> (r matches LeaveStep::Reply(t) && t@ == "Not in a voice channel"@),
    {
        if has_handler {
            LeaveStep::Remove
        } else {
            LeaveStep::Reply(Leave::not_in_channel_reply())
        }
    }

    /// The reply when the bot is in no voice channel of the guild.
    pub fn not_in_channel_reply() -> (r: String)
        ensures
            r@ == "Not in a voice channel"@,
    {
        String::from_str("Not in a voice channel")
    }
}

} // verus!
