use vstd::prelude::*;

verus! {

/// The suit of a card. The rules of play never look at it; it only tells the
/// four cards of one rank apart.
#[derive(Clone, Copy, Debug, PartialEq, Eq, Structural)]
pub enum Suit {
    Diamonds,
    Spades,
    Clubs,
    Hearts,
}

impl Suit {
    /// The position of a suit in the order in which a deck is built.
    pub open spec fn position(self) -> int {
        match self {
            Suit::Diamonds => 0,
            Suit::Spades => 1,
            Suit::Clubs => 2,
            Suit::Hearts => 3,
        }
    }

    /// The suit at position `i`; hearts for every `i` above 2.
    pub open spec fn at(i: int) -> Suit {
        if i <= 0 {
            Suit::Diamonds
        } else if i == 1 {
            Suit::Spades
        } else if i == 2 {
            Suit::Clubs
        } else {
            Suit::Hearts
        }
    }

    /// All four suits in deck order.
    pub open spec fn all() -> Seq<Suit> {
        Seq::new(4, |i: int| Suit::at(i))
    }

    /// The suits in deck order: diamonds, spades, clubs, hearts.
    pub fn iter() -> (suits: Vec<Suit>)
        ensures
            suits@ == Suit::all(),
    {
        let suits = vec![Suit::Diamonds, Suit::Spades, Suit::Clubs, Suit::Hearts];
        assert(suits@ =~= Suit::all());
        suits
    }

    /// A suit is determined by its position, which lies between 0 and 3.
    pub proof fn lemma_position_roundtrip(self)
        ensures
            0 <= self.position() <= 3,
            Suit::at(self.position()) == self,
    {
    }
}

} // verus!
