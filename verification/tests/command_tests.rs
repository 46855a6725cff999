use music_bot::commands::help::Help;
use music_bot::commands::join::Join;
use music_bot::commands::leave::Leave;
use music_bot::commands::play::Play;
use music_bot::commands::queue::Queue;
use music_bot::commands::shuffle::Shuffle;
use music_bot::commands::skip::Skip;
use music_bot::commands::AvailableCommands;
use music_bot::handler::Handler;

#[test]
fn every_word_parses_to_its_command() {
    let words = ["-help", "-join", "-play", "-queue", "-shuffle", "-skip", "-leave"];
    let all = AvailableCommands::all();
    assert_eq!(all.len(), words.len());
    for (w, c) in words.iter().zip(all.iter()) {
        assert_eq!(AvailableCommands::parse(w), Ok(*c));
    }
}

#[test]
fn unknown_words_are_refused() {
    assert_eq!(
        AvailableCommands::parse("-nope"),
        Err("parsed command not implemented: -nope".to_string())
    );
    assert_eq!(
        AvailableCommands::parse("-Help"),
        Err("parsed command not implemented: -Help".to_string())
    );
    assert_eq!(
        AvailableCommands::parse(""),
        Err("parsed command not implemented: ".to_string())
    );
}

#[test]
fn from_str_parses() {
    let c: AvailableCommands = "-skip".parse().unwrap();
    assert_eq!(c, AvailableCommands::Skip);
    assert!("skip".parse::<AvailableCommands>().is_err());
}

#[test]
fn all_lists_each_command_once_in_order() {
    let all = AvailableCommands::all();
    assert_eq!(
        all,
        vec![
            AvailableCommands::Help,
            AvailableCommands::Join,
            AvailableCommands::Play,
            AvailableCommands::Queue,
            AvailableCommands::Shuffle,
            AvailableCommands::Skip,
            AvailableCommands::Leave,
        ]
    );
}

#[test]
fn descriptions() {
    assert_eq!(
        AvailableCommands::Help.get_description(),
        "**-help**: returns all of the currently available commands"
    );
    assert_eq!(
        AvailableCommands::Leave.get_description(),
        "**-leave**: makes me leave the voice channel _(fuck you)_"
    );
    assert_eq!(
        AvailableCommands::Shuffle.get_description(),
        "**-shuffle**: shuffles all songs in the current queue"
    );
    assert_eq!(
        AvailableCommands::Skip.get_description(),
        "**-skip**: skips the current song that im playing"
    );
    assert_eq!(Help::description(), AvailableCommands::Help.get_description());
    assert_eq!(Join::description(), AvailableCommands::Join.get_description());
    assert_eq!(Play::description(), AvailableCommands::Play.get_description());
    assert_eq!(Queue::description(), AvailableCommands::Queue.get_description());
    assert_eq!(Shuffle::description(), AvailableCommands::Shuffle.get_description());
    assert_eq!(Skip::description(), AvailableCommands::Skip.get_description());
    assert_eq!(Leave::description(), AvailableCommands::Leave.get_description());
}

#[test]
fn help_message_lists_every_command() {
    let m = Help::message("<:lol:1>");
    let mut expected = String::from(
        "Tf you need help for bruh are you stupid <:lol:1> <:lol:1> <:lol:1>\n\naight bruh, here are the current available commands:\n\n",
    );
    for c in AvailableCommands::all() {
        expected.push_str(&c.get_description());
        expected.push('\n');
    }
    assert_eq!(m, expected);
    assert_eq!(m.lines().count(), 4 + 7);
}

#[test]
fn first_word_of_a_message() {
    assert_eq!(Handler::command_word("-play never gonna"), "-play");
    assert_eq!(Handler::command_word("-queue"), "-queue");
    assert_eq!(Handler::command_word(""), "");
    assert_eq!(Handler::command_word(" -play"), "");
}

#[test]
fn message_picks_its_command() {
    assert_eq!(Handler::command_for("-play some song"), Some(AvailableCommands::Play));
    assert_eq!(Handler::command_for("-leave"), Some(AvailableCommands::Leave));
    assert_eq!(Handler::command_for("hello -play"), None);
    assert_eq!(Handler::command_for("-playx"), None);
}

#[test]
fn every_description_names_its_command() {
    let words = ["-help", "-join", "-play", "-queue", "-shuffle", "-skip", "-leave"];
    for (w, c) in words.iter().zip(AvailableCommands::all()) {
        assert!(c.get_description().starts_with(&format!("**{}**", w)));
    }
}
