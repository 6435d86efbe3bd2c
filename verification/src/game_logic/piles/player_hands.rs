use vstd::prelude::*;
use std::ops::{Index, IndexMut};
use crate::game_logic::card::Card;
use crate::game_logic::player::Player;

verus! {

/// The hands of both players: four slots each, every slot holding a card or
/// nothing. A slot keeps its index for the whole game.
#[derive(Debug)]
pub struct PlayerHands(pub [Option<Card>; 4], pub [Option<Card>; 4]);

impl PlayerHands {
    /// The four slots of `player`'s hand, in index order.
    pub open spec fn hand(&self, player: Player) -> Seq<Option<Card>> {
        match player {
            Player::PLAYER1 => self.0@,
            Player::PLAYER2 => self.1@,
        }
    }
}

impl vstd::std_specs::core::IndexSpecImpl<Player> for PlayerHands {
    open spec fn index_req(&self, index: &Player) -> bool {
        true
    }
}

impl Index<Player> for PlayerHands {
    type Output = [Option<Card>; 4];

    fn index(&self, player: Player) -> (hand: &[Option<Card>; 4])
        ensures
            hand@ == self.hand(player),
    {
        match player {
            Player::PLAYER1 => &self.0,
            Player::PLAYER2 => &self.1,
        }
    }
}

impl IndexMut<Player> for PlayerHands {
    /// Lends out `player`'s hand. What the borrower leaves there is that
    /// player's new hand; the other player's is not touched.
    fn index_mut(&mut self, player: Player) -> (hand: &mut [Option<Card>; 4])
        ensures
            hand@ == old(self).hand(player),
            final(self).hand(player) == final(hand)@,
            player == Player::PLAYER1 ==> final(self).1 == old(self).1,
            player == Player::PLAYER2 ==> final(self).0 == old(self).0,
    {
        match player {
            Player::PLAYER1 => &mut self.0,
            Player::PLAYER2 => &mut self.1,
        }
    }
}

} // verus!
