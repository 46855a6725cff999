//! What the bot does with an incoming message: pick the command out of its first word.
use vstd::prelude::*;
use vstd::string::*;
use crate::commands::{AvailableCommands, command_named, command_word, lemma_word_parses_back};

verus! {

/// The text of a message up to its first space, or the whole text if it has none.
pub open spec fn first_word(s: Seq<char>) -> Seq<char>
    decreases s.len(),
{
    if s.len() == 0 {
        s
    } else if s[0] == ' ' {
        Seq::empty()
    } else {
        seq![s[0]] + first_word(s.drop_first())
    }
}

/// Law: the first word is the prefix of the text that ends right before its first space
/// (or at its end), so it holds no space.
pub proof fn lemma_first_word(s: Seq<char>, k: int)
    requires
        0 <= k <= s.len(),
        forall|j: int| 0 <= j < k ==> s[j] != ' ',
        k < s.len() ==> s[k] == ' ',
    ensures
        first_word(s) == s.take(k),
    decreases k,
{
    if k == 0 {
        if s.len() > 0 {
            assert(first_word(s) =~= s.take(0));
        } else {
            assert(s =~= s.take(0));
        }
    } else {
        let t = s.drop_first();
        assert forall|j: int| 0 <= j < k - 1 implies t[j] != ' ' by {
            assert(t[j] == s[j + 1]);
        }
        lemma_first_word(t, k - 1);
        assert(seq![s[0]] + t.take(k - 1) =~= s.take(k));
    }
}

/// Law: a message that starts with a command's word, followed by a space and anything,
/// or by nothing, invokes that command.
pub proof fn lemma_message_invokes_command(c: AvailableCommands, rest: Seq<char>)
    ensures
        command_named(first_word(command_word(c))) == Some(c),
        command_named(first_word(command_word(c) + seq![' '] + rest)) == Some(c),
{
    reveal_strlit("-help");
    reveal_strlit("-join");
    reveal_strlit("-play");
    reveal_strlit("-queue");
    reveal_strlit("-shuffle");
    reveal_strlit("-skip");
    reveal_strlit("-leave");
    let w = command_word(c);
    let m = w + seq![' '] + rest;
    assert(forall|j: int| 0 <= j < w.len() ==> w[j] != ' ');
    lemma_first_word(w, w.len() as int);
    assert(w.take(w.len() as int) =~= w);
    assert forall|j: int| 0 <= j < w.len() implies m[j] != ' ' by {
        assert(m[j] == w[j]);
    }
    lemma_first_word(m, w.len() as int);
    assert(m.take(w.len() as int) =~= w);
    lemma_word_parses_back(c);
}

/// The bot's handler of gateway events.
#[derive(Debug, Clone)]
pub struct Handler;

impl Handler {
    /// The first word of a message's text.
    pub fn command_word(content: &str) -> (w: &str)
        ensures
            w@ == first_word(content@),
    {
        let n = content.unicode_len();
        let mut k: usize = 0;
        while k < n
            invariant
                n == content@.len(),
                k <= n,
                forall|j: int| 0 <= j < k ==> content@[j] != ' ',
            ensures
                k <= n,
                forall|j: int| 0 <= j < k ==> content@[j] != ' ',
                k < n ==> content@[k as int] == ' ',
            decreases n - k,
        {
            if content.get_char(k) == ' ' {
                break;
            }
            k = k + 1;
        }
        proof {
            lemma_first_word(content@, k as int);
        }
        content.substring_char(0, k)
    }

    /// The command that a message invokes through its first word, if any.
    pub fn command_for(content: &str) -> (r: Option<AvailableCommands>)
        ensures
            r == command_named(first_word(content@)),
    {
        let word = Handler::command_word(content);
        match AvailableCommands::parse(word) {
            Ok(c) => Some(c),
            Err(_) => None,
        }
    }
}

} // verus!
