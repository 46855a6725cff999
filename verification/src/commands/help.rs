//! `-help`: the list of commands that the bot answers to.
use vstd::prelude::*;
use vstd::string::*;
use super::{AvailableCommands, all_commands, description_text};

verus! {

/// `-help`: lists the available commands.
#[derive(Debug, Clone)]
pub struct Help;

impl Help {
    /// The description of this command in the help text.
    pub fn description() -> (d: String)
        ensures
            d@ == description_text(AvailableCommands::Help),
    {
        String::from_str("**-help**: returns all of the currently available commands")
    }
}

/// A line of a message: its text followed by a line break.
pub open spec fn line(text: Seq<char>) -> Seq<char> {
    text.push('\n')
}

/// The opening lines of the help text, which show the given emoji three times.
pub open spec fn help_header(emoji: Seq<char>) -> Seq<char> {
    line("Tf you need help for bruh are you stupid "@ + emoji + " "@ + emoji + " "@ + emoji)
        + line(Seq::empty()) + line("aight bruh, here are the current available commands:"@)
        + line(Seq::empty())
}

/// One line per command, holding its description, in the order given.
pub open spec fn description_lines(cs: Seq<AvailableCommands>) -> Seq<char>
    decreases cs.len(),
{
    if cs.len() == 0 {
        Seq::empty()
    } else {
        description_lines(cs.drop_last()) + line(description_text(cs.last()))
    }
}

/// The full help text.
pub open spec fn help_text(emoji: Seq<char>) -> Seq<char> {
    help_header(emoji) + description_lines(all_commands())
}

impl Help {
    /// The help text, given the rendering of the emoji that decorates it.
    pub fn message(emoji: &str) -> (m: String)
        ensures
            m@ == help_text(emoji@),
    {
        proof {
            reveal_strlit("\n");
        }
        let mut m = String::from_str("Tf you need help for bruh are you stupid ");
        m.append(emoji);
        m.append(" ");
        m.append(emoji);
        m.append(" ");
        m.append(emoji);
        m.append("\n");
        m.append("\n");
        m.append("aight bruh, here are the current available commands:");
        m.append("\n");
        m.append("\n");
        assert(m@ =~= help_header(emoji@));
        let commands = AvailableCommands::all();
        let mut i: usize = 0;
        while i < commands.len()
            invariant
                commands@ == all_commands(),
                i <= commands.len(),
                m@ == help_header(emoji@) + description_lines(commands@.take(i as int)),
            decreases commands.len() - i,
        {
            let ghost before = m@;
            let d = commands[i].get_description();
            m.append(d.as_str());
            m.append("\n");
            proof {
                reveal_strlit("\n");
            }
            assert(commands@.take(i + 1).drop_last() =~= commands@.take(i as int));
            assert(commands@.take(i + 1).last() == commands@[i as int]);
            assert(description_lines(commands@.take(i + 1)) == description_lines(
                commands@.take(i as int),
            ) + line(description_text(commands@[i as int])));
            assert(m@ =~= before + line(description_text(commands@[i as int])));
            assert(m@ =~= help_header(emoji@) + description_lines(commands@.take(i + 1)));
            i = i + 1;
        }
        assert(commands@.take(i as int) =~= commands@);
        m
    }
}

} // verus!
