use vstd::prelude::*;
use std::ops::{Index, IndexMut};
use crate::game_logic::card::Card;
use crate::game_logic::player::Player;

verus! {

/// Two stacks of cards, one for each player. The top of a stack is its last
/// card.
#[derive(Debug)]
pub struct PlayerIndexedPile(pub Vec<Card>, pub Vec<Card>);

impl PlayerIndexedPile {
    /// The cards of `player`'s stack, bottom first.
    pub open spec fn pile(&self, player: Player) -> Seq<Card> {
        match player {
            Player::PLAYER1 => self.0@,
            Player::PLAYER2 => self.1@,
        }
    }
}

impl vstd::std_specs::core::IndexSpecImpl<Player> for PlayerIndexedPile {
    open spec fn index_req(&self, index: &Player) -> bool {
        true
    }
}

impl Index<Player> for PlayerIndexedPile {
    type Output = Vec<Card>;

    fn index(&self, player: Player) -> (pile: &Vec<Card>)
        ensures
            pile@ == self.pile(player),
    {
        match player {
            Player::PLAYER1 => &self.0,
            Player::PLAYER2 => &self.1,
        }
    }
}

impl IndexMut<Player> for PlayerIndexedPile {
    /// Lends out `player`'s stack. What the borrower leaves there is that
    /// player's new stack; the other player's is not touched.
    fn index_mut(&mut self, player: Player) -> (pile: &mut Vec<Card>)
        ensures
            pile@ == old(self).pile(player),
            final(self).pile(player) == final(pile)@,
            player == Player::PLAYER1 ==> final(self).1 == old(self).1,
            player == Player::PLAYER2 ==> final(self).0 == old(self).0,
    {
        match player {
            Player::PLAYER1 => &mut self.0,
            Player::PLAYER2 => &mut self.1,
        }
    }
}

} // verus!
