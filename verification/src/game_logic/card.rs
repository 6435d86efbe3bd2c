use vstd::prelude::*;
use crate::game_logic::rank::Rank;
use crate::game_logic::suit::Suit;

verus! {

/// A playing card. Cards are plain values: they are copied, never changed.
#[derive(Clone, Copy, Debug, PartialEq, Eq, Structural)]
pub struct Card {
    pub rank: Rank,
    pub suit: Suit,
}

impl Card {
    /// The deck in the order in which it is built: suit by suit, and within a
    /// suit from the ace to the king.
    pub open spec fn deck() -> Seq<Card> {
        Seq::new(52, |i: int| Card { rank: Rank::with_value(i % 13 + 1), suit: Suit::at(i / 13) })
    }

    /// The place of this card in the deck.
    pub open spec fn deck_position(self) -> int {
        self.suit.position() * 13 + self.rank.spec_value() - 1
    }

    pub fn new(rank: Rank, suit: Suit) -> (card: Card)
        ensures
            card.rank == rank,
            card.suit == suit,
    {
        Card { rank, suit }
    }

    /// Whether this card may be placed on `other`: their ranks are adjacent.
    /// Suits play no part.
    pub open spec fn spec_is_adjacent_card(&self, other: &Card) -> bool {
        self.rank.is_adjacent(other.rank)
    }

    /// The 52 cards, one of each rank and suit, in deck order.
    pub fn full_deck() -> (deck: Vec<Card>)
        ensures
            deck@ == Card::deck(),
    {
        let suits = Suit::iter();
        let ranks = Rank::iter();
        let mut deck: Vec<Card> = Vec::new();
        let mut s: usize = 0;
        while s < 4
            invariant
                s <= 4,
                suits@ == Suit::all(),
                ranks@ == Rank::all(),
                deck@.len() == 13 * s,
                forall|i: int| 0 <= i < deck@.len() ==> deck@[i] == Card::deck()[i],
            decreases 4 - s,
        {
            let mut r: usize = 0;
            while r < 13
                invariant
                    s < 4,
                    r <= 13,
                    suits@ == Suit::all(),
                    ranks@ == Rank::all(),
                    deck@.len() == 13 * s + r,
                    forall|i: int| 0 <= i < deck@.len() ==> deck@[i] == Card::deck()[i],
                decreases 13 - r,
            {
                deck.push(Card { rank: ranks[r], suit: suits[s] });
                r += 1;
            }
            s += 1;
        }
        assert(deck@ =~= Card::deck());
        deck
    }

    #[verifier::when_used_as_spec(spec_is_adjacent_card)]
    pub fn is_adjacent_card(&self, other: &Card) -> (adjacent: bool)
        ensures
            adjacent == self.rank.is_adjacent(other.rank),
    {
        let a: u8 = self.rank.value();
        let b: u8 = other.rank.value();
        let d: u8 = if a >= b { a - b } else { b - a };
        d == 1 || d == 12
    }
}

/// Every card lies in the deck, at its deck position.
pub proof fn lemma_deck_complete(card: Card)
    ensures
        0 <= card.deck_position() < 52,
        Card::deck()[card.deck_position()] == card,
        Card::deck().contains(card),
{
    card.rank.lemma_value_roundtrip();
    card.suit.lemma_position_roundtrip();
}

/// The deck has 52 cards, and no card lies in it twice.
pub proof fn lemma_deck_distinct()
    ensures
        Card::deck().len() == 52,
        Card::deck().no_duplicates(),
{
    assert forall|i: int| 0 <= i < 52 implies #[trigger] Card::deck()[i].deck_position() == i by {
        Rank::lemma_with_value(i % 13 + 1);
    }
}

/// Counted with multiplicity, the deck holds every card exactly once.
pub proof fn lemma_deck_holds_once(card: Card)
    ensures
        Card::deck().to_multiset().count(card) == 1,
{
    lemma_deck_complete(card);
    lemma_deck_distinct();
    Card::deck().to_multiset_ensures();
    Card::deck().lemma_multiset_has_no_duplicates();
}

} // verus!
