use vstd::prelude::*;
use rand::rngs::ThreadRng;
use rand::seq::SliceRandom;
use crate::game_logic::card::Card;

verus! {

/// The generator that `rand` keeps for each thread. Nothing of its state is
/// known here: it is only handed on to the shuffle.
#[verifier::external_type_specification]
#[verifier::external_body]
pub struct ExThreadRng(ThreadRng);

/// `rand::thread_rng` hands out the calling thread's generator. Nothing is
/// claimed of it. The call takes no argument and fails only where the
/// operating system cannot seed the generator on its first use in a thread.
pub assume_specification[ rand::thread_rng ]() -> (rng: ThreadRng)
;

/// `SliceRandom::shuffle` of `rand`, on a slice of cards. It only swaps
/// elements of the slice, at indices that it draws within the slice's
/// bounds, so the cards afterwards are the cards before, each as often as
/// before. Their order depends on the generator and is left open.
#[verifier::external_body]
pub(crate) fn shuffle_cards(cards: &mut Vec<Card>, rng: &mut ThreadRng)
    ensures
        final(cards)@.to_multiset() == old(cards)@.to_multiset(),
{
    cards.shuffle(rng);
}

} // verus!
