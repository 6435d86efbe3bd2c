use vstd::prelude::*;

verus! {

/// One of the two players at the table.
#[derive(Clone, Copy, Debug, PartialEq, Eq, Structural)]
pub enum Player {
    PLAYER1,
    PLAYER2,
}

impl Player {
    pub open spec fn spec_opponent(&self) -> Player {
        match self {
            Player::PLAYER1 => Player::PLAYER2,
            Player::PLAYER2 => Player::PLAYER1,
        }
    }

    /// The other player.
    #[verifier::when_used_as_spec(spec_opponent)]
    pub fn opponent(&self) -> (other: Player)
        ensures
            other == self.spec_opponent(),
            other != *self,
    {
        match self {
            Player::PLAYER1 => Player::PLAYER2,
            Player::PLAYER2 => Player::PLAYER1,
        }
    }

    /// The opponent of a player's opponent is the player.
    pub proof fn lemma_opponent_involution(self)
        ensures
            self.spec_opponent().spec_opponent() == self,
    {
    }
}

} // verus!
