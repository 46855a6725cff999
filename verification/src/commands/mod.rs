//! The bot's commands: their names, their descriptions and the help text.
pub mod help;
pub mod join;
pub mod leave;
pub mod skip;
pub mod queue;
pub mod play;
pub mod shuffle;

use vstd::prelude::*;
use vstd::string::*;
use crate::utils::same_text;
use self::help::Help;
use self::join::Join;
use self::leave::Leave;
use self::play::Play;
use self::queue::Queue;
use self::shuffle::Shuffle;
use self::skip::Skip;

verus! {

/// The commands the bot answers to.
#[derive(Debug, Clone, Copy, PartialEq, Eq, Structural)]
pub enum AvailableCommands {
    Help,
    Join,
    Play,
    Queue,
    Shuffle,
    Skip,
    Leave,
}

/// The key under which a track keeps its metadata.
#[derive(Debug, Clone)]
pub struct TrackMetadata;

/// The word that invokes a command in a message.
pub open spec fn command_word(c: AvailableCommands) -> Seq<char> {
    match c {
        AvailableCommands::Help => "-help"@,
        AvailableCommands::Join => "-join"@,
        AvailableCommands::Play => "-play"@,
        AvailableCommands::Queue => "-queue"@,
        AvailableCommands::Shuffle => "-shuffle"@,
        AvailableCommands::Skip => "-skip"@,
        AvailableCommands::Leave => "-leave"@,
    }
}

/// The command that a word invokes, if any.
pub open spec fn command_named(w: Seq<char>) -> Option<AvailableCommands> {
    if w == "-help"@ {
        Some(AvailableCommands::Help)
    } else if w == "-join"@ {
        Some(AvailableCommands::Join)
    } else if w == "-play"@ {
        Some(AvailableCommands::Play)
    } else if w == "-queue"@ {
        Some(AvailableCommands::Queue)
    } else if w == "-shuffle"@ {
        Some(AvailableCommands::Shuffle)
    } else if w == "-skip"@ {
        Some(AvailableCommands::Skip)
    } else if w == "-leave"@ {
        Some(AvailableCommands::Leave)
    } else {
        None
    }
}

/// The error text for a word that names no command.
pub open spec fn unknown_command_text(w: Seq<char>) -> Seq<char> {
    "parsed command not implemented: "@ + w
}

/// The description of a command, as listed in the help text.
pub open spec fn description_text(c: AvailableCommands) -> Seq<char> {
    match c {
        AvailableCommands::Help => "**-help**: returns all of the currently available commands"@,
        AvailableCommands::Join => "**-join**: Join the specified voice channel or the one you are currently in."@,
        AvailableCommands::Play => "**-play**: Play a song in the voice channel you are connected in."@,
        AvailableCommands::Queue => "**-queue**: Add a song to the queue"@,
        AvailableCommands::Shuffle => "**-shuffle**: shuffles all songs in the current queue"@,
        AvailableCommands::Skip => "**-skip**: skips the current song that im playing"@,
        AvailableCommands::Leave => "**-leave**: makes me leave the voice channel _(fuck you)_"@,
    }
}

/// Every command, in the order in which they are declared.
pub open spec fn all_commands() -> Seq<AvailableCommands> {
    seq![
        AvailableCommands::Help,
        AvailableCommands::Join,
        AvailableCommands::Play,
        AvailableCommands::Queue,
        AvailableCommands::Shuffle,
        AvailableCommands::Skip,
        AvailableCommands::Leave,
    ]
}

impl AvailableCommands {
    /// Parses the word of a message into a command.
    pub fn parse(s: &str) -> (r: Result<AvailableCommands, String>)
        ensures
            match r {
                Ok(c) => command_named(s@) == Some(c),
                Err(e) => command_named(s@) is None && e@ == unknown_command_text(s@),
            },
            r matches Ok(c) ==> s@ == command_word(c),
            r is Err ==> forall|c: AvailableCommands| s@ != #[trigger] command_word(c),
    {
        if same_text(s, "-help") {
            Ok(AvailableCommands::Help)
        } else if same_text(s, "-join") {
            Ok(AvailableCommands::Join)
        } else if same_text(s, "-play") {
            Ok(AvailableCommands::Play)
        } else if same_text(s, "-queue") {
            Ok(AvailableCommands::Queue)
        } else if same_text(s, "-shuffle") {
            Ok(AvailableCommands::Shuffle)
        } else if same_text(s, "-skip") {
            Ok(AvailableCommands::Skip)
        } else if same_text(s, "-leave") {
            Ok(AvailableCommands::Leave)
        } else {
            let mut e = String::from_str("parsed command not implemented: ");
            e.append(s);
            Err(e)
        }
    }

    /// The description of this command.
    pub fn get_description(&self) -> (d: String)
        ensures
            d@ == description_text(*self),
    {
        match self {
            AvailableCommands::Help => Help::description(),
            AvailableCommands::Join => Join::description(),
            AvailableCommands::Play => Play::description(),
            AvailableCommands::Queue => Queue::description(),
            AvailableCommands::Shuffle => Shuffle::description(),
            AvailableCommands::Skip => Skip::description(),
            AvailableCommands::Leave => Leave::description(),
        }
    }

    /// Every command, in the order in which they are declared.
    pub fn all() -> (v: Vec<AvailableCommands>)
        ensures
            v@ == all_commands(),
    {
        let v = vec![
            AvailableCommands::Help,
            AvailableCommands::Join,
            AvailableCommands::Play,
            AvailableCommands::Queue,
            AvailableCommands::Shuffle,
            AvailableCommands::Skip,
            AvailableCommands::Leave,
        ];
        assert(v@ =~= all_commands());
        v
    }
}

impl std::str::FromStr for AvailableCommands {
    type Err = String;

    fn from_str(s: &str) -> (r: Result<Self, Self::Err>)
        ensures
            match r {
                Ok(c) => command_named(s@) == Some(c),
                Err(e) => command_named(s@) is None && e@ == unknown_command_text(s@),
            },
    {
        AvailableCommands::parse(s)
    }
}

/// Law: a word names a command only if it is that command's own word, so any word other
/// than the seven command words names none.
pub proof fn lemma_named_only_by_word(w: Seq<char>, c: AvailableCommands)
    requires
        command_named(w) == Some(c),
    ensures
        w == command_word(c),
{
}

/// Law: a word that is no command's word names no command.
pub proof fn lemma_other_words_name_nothing(w: Seq<char>)
    requires
        forall|c: AvailableCommands| w != #[trigger] command_word(c),
    ensures
        command_named(w) is None,
{
    if command_named(w) is Some {
        lemma_named_only_by_word(w, command_named(w)->0);
    }
}

/// Law: the word of every command parses back to that command, and no two commands
/// share a word.
pub proof fn lemma_word_parses_back(c: AvailableCommands)
    ensures
        command_named(command_word(c)) == Some(c),
{
    reveal_strlit("-help");
    reveal_strlit("-join");
    reveal_strlit("-play");
    reveal_strlit("-queue");
    reveal_strlit("-shuffle");
    reveal_strlit("-skip");
    reveal_strlit("-leave");
    assert("-help"@[1] == 'h' && "-join"@[1] == 'j' && "-play"@[1] == 'p' && "-skip"@[1] == 's');
    assert("-queue"@[1] == 'q' && "-leave"@[1] == 'l' && "-shuffle"@.len() == 8);
}

/// Law: the description of every command opens with the command's word in bold, so the
/// help text names each command it describes.
pub proof fn lemma_description_names_command(c: AvailableCommands)
    ensures
        ("**"@ + command_word(c) + "**"@).len() <= description_text(c).len(),
        description_text(c).subrange(0, ("**"@ + command_word(c) + "**"@).len() as int) == "**"@
            + command_word(c) + "**"@,
{
    reveal_strlit("**");
    reveal_strlit("-help");
    reveal_strlit("-join");
    reveal_strlit("-play");
    reveal_strlit("-queue");
    reveal_strlit("-shuffle");
    reveal_strlit("-skip");
    reveal_strlit("-leave");
    reveal_strlit("**-help**: returns all of the currently available commands");
    reveal_strlit("**-join**: Join the specified voice channel or the one you are currently in.");
    reveal_strlit("**-play**: Play a song in the voice channel you are connected in.");
    reveal_strlit("**-queue**: Add a song to the queue");
    reveal_strlit("**-shuffle**: shuffles all songs in the current queue");
    reveal_strlit("**-skip**: skips the current song that im playing");
    reveal_strlit("**-leave**: makes me leave the voice channel _(fuck you)_");
    let p = "**"@ + command_word(c) + "**"@;
    assert(description_text(c).subrange(0, p.len() as int) =~= p);
}

/// Law: the list of all commands holds every command exactly once.
pub proof fn lemma_all_commands_once(c: AvailableCommands)
    ensures
        all_commands().contains(c),
        forall|i: int, j: int|
            0 <= i < j < all_commands().len() ==> all_commands()[i] != all_commands()[j],
{
    let s = all_commands();
    match c {
        AvailableCommands::Help => assert(s[0] == c),
        AvailableCommands::Join => assert(s[1] == c),
        AvailableCommands::Play => assert(s[2] == c),
        AvailableCommands::Queue => assert(s[3] == c),
        AvailableCommands::Shuffle => assert(s[4] == c),
        AvailableCommands::Skip => assert(s[5] == c),
        AvailableCommands::Leave => assert(s[6] == c),
    }
}

} // verus!
