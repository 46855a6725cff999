//! `-join`: which voice channel to join, if any.
use vstd::prelude::*;
use vstd::string::*;
use super::{AvailableCommands, description_text};

verus! {

/// `-join`: joins the caller's voice channel.
#[derive(Debug, Clone)]
pub struct Join;

impl Join {
    /// The description of this command in the help text.
    pub fn description() -> (d: String)
        ensures
            d@ == description_text(AvailableCommands::Join),
    {
        String::from_str("**-join**: Join the specified voice channel or the one you are currently in.")
    }
}

/// What `-join` does.
#[derive(Debug, Clone, Copy, PartialEq, Eq, Structural)]
pub enum JoinPlan {
    /// No channel was asked for and the bot already plays in this guild: stay.
    AlreadyJoined,
    /// Connect to the voice channel with this id.
    Connect(u64),
}

impl Join {
    /// What `-join` does, given whether the bot already plays in the guild, the channel
    /// asked for, and the voice channel the caller is in. A channel that is asked for is
    /// joined, wherever the bot is; with none asked for, the bot stays where it plays,
    /// or else joins the caller's channel, and fails with `Not in a voice channel` when
    /// the caller is in none.
    pub fn plan(has_player: bool, requested: Option<u64>, caller_channel: Option<u64>) -> (r:
        Result<JoinPlan, String>)
        ensures
            requested matches Some(c) ==> r == Ok::<JoinPlan, String>(JoinPlan::Connect(c)),
            requested is None && has_player ==> r == Ok::<JoinPlan, String>(
                JoinPlan::AlreadyJoined,
            ),
            requested is None && !has_player ==> match caller_channel {
                Some(c) => r == Ok::<JoinPlan, String>(JoinPlan::Connect(c)),
                None => r matches Err(e) && e@ == "Not in a voice channel"@,
            },
    {
        match requested {
            Some(c) => Ok(JoinPlan::Connect(c)),
            None => {
                if has_player {
                    Ok(JoinPlan::AlreadyJoined)
                } else {
                    match caller_channel {
                        Some(c) => Ok(JoinPlan::Connect(c)),
                        None => Err(String::from_str("Not in a voice channel")),
                    }
                }
            },
        }
    }

    /// The message when connecting to the channel failed, given the failure's text.
    pub fn failure_reply(why: &str) -> (r: String)
        ensures
            r@ == "Error joining the channel: "@ + why@,
    {
        let mut r = String::from_str("Error joining the channel: ");
        r.append(why);
        r
    }

    /// The channel that a prefix `-join` without arguments connects to: the caller's
    /// voice channel, or the reply `Not in a voice channel` when the caller is in none.
    pub fn caller_target(caller_channel: Option<u64>) -> (r: Result<u64, String>)
        ensures
            match caller_channel {
                Some(c) => r == Ok::<u64, String>(c),
                None => r matches Err(e) && e@ == "Not in a voice channel"@,
            },
    {
        match caller_channel {
            Some(c) => Ok(c),
            None => Err(String::from_str("Not in a voice channel")),
        }
    }

    /// The reply of a prefix `-join` once it connects to the caller's channel.
    pub fn joining_reply() -> (r: String)
        ensures
            r@ == "Joining"@,
    {
        String::from_str("Joining")
    }
}

} // verus!
