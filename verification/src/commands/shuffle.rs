//! `-shuffle`: shuffles the queue, keeping the song that plays first in place.
use vstd::prelude::*;
use vstd::string::*;
use std::collections::VecDeque;
use rand::rngs::ThreadRng;
use rand::seq::SliceRandom;
use super::{AvailableCommands, description_text};

verus! {

/// `-shuffle`: shuffles the queue.
#[derive(Debug, Clone)]
pub struct Shuffle;

impl Shuffle {
    /// The description of this command in the help text.
    pub fn description() -> (d: String)
        ensures
            d@ == description_text(AvailableCommands::Shuffle),
    {
        String::from_str("**-shuffle**: shuffles all songs in the current queue")
    }
}

/// Declares `rand::rngs::ThreadRng`, the thread-local random number generator.
#[verifier::external_type_specification]
#[verifier::external_body]
pub struct ExThreadRng(ThreadRng);

/// Trusted: `rand::thread_rng`. Nothing is claimed of the generator it hands back.
#[verifier::external_body]
fn thread_rng() -> ThreadRng {
    rand::thread_rng()
}

/// Trusted: `SliceRandom::shuffle` on the queue's items, laid out contiguously by
/// `VecDeque::make_contiguous`. The contract claims that the items come out as a
/// permutation of the items that went in: the same multiset, the same length. Which
/// permutation it is rests on chance and is not stated.
#[verifier::external_body]
fn shuffle_items<T>(queue: &mut VecDeque<T>, rng: &mut ThreadRng)
    ensures
        final(queue)@.len() == old(queue)@.len(),
        final(queue)@.to_multiset() == old(queue)@.to_multiset(),
{
    queue.make_contiguous().shuffle(rng)
}

impl Shuffle {
    /// Shuffles every item of the queue but the first, which stays in front.
    pub fn shuffle_queue<T>(queue: &mut VecDeque<T>)
        ensures
            old(queue)@.len() == 0 ==> final(queue)@ == old(queue)@,
            final(queue)@.len() == old(queue)@.len(),
            old(queue)@.len() > 0 ==> final(queue)@[0] == old(queue)@[0],
            old(queue)@.len() > 0 ==> final(queue)@.drop_first().to_multiset() == old(
                queue,
            )@.drop_first().to_multiset(),
    {
        if queue.len() > 0 {
            let first = queue.pop_front();
            match first {
                Some(song) => {
                    let ghost rest = queue@;
                    assert(rest =~= old(queue)@.drop_first());
                    let mut rng = thread_rng();
                    shuffle_items(queue, &mut rng);
                    let ghost shuffled = queue@;
                    queue.push_front(song);
                    assert(queue@.drop_first() =~= shuffled);
                },
                None => {},
            }
        }
    }

    /// The reply to `-shuffle`: whether there was a queue to shuffle.
    pub fn reply(has_queue: bool) -> (r: String)
        ensures
            has_queue ==> r@ == "The queue has been shuffled"@,
            !has_queue ==> r@ == "Queue is currently empty"@,
    {
        if has_queue {
            String::from_str("The queue has been shuffled")
        } else {
            String::from_str("Queue is currently empty")
        }
    }
}

} // verus!
