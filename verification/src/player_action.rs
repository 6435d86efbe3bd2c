use vstd::prelude::*;
use crate::game_logic::side::Side;

verus! {

/// A move that a player asks for.
#[derive(Clone, Copy, Debug, PartialEq, Eq, Structural)]
pub enum PlayerAction {
    /// Draw a card from the own draw pile into the hand.
    DrawCard,
    /// Turn the top cards of the middle piles onto the active piles.
    Flip,
    /// Place the card in the given slot of the hand on the active pile on
    /// the given side.
    PlaceCard(usize, Side),
}

} // verus!
