use vstd::prelude::*;

verus! {

/// The rank of a card, from the ace (lowest) to the king (highest).
#[derive(Clone, Copy, Debug, PartialEq, Eq, Structural)]
pub enum Rank {
    Ace,
    Two,
    Three,
    Four,
    Five,
    Six,
    Seven,
    Eight,
    Nine,
    Ten,
    Jack,
    Queen,
    King,
}

impl Rank {
    /// The ordinal of a rank: 1 for the ace, 13 for the king.
    pub open spec fn spec_value(&self) -> u8 {
        match self {
            Rank::Ace => 1,
            Rank::Two => 2,
            Rank::Three => 3,
            Rank::Four => 4,
            Rank::Five => 5,
            Rank::Six => 6,
            Rank::Seven => 7,
            Rank::Eight => 8,
            Rank::Nine => 9,
            Rank::Ten => 10,
            Rank::Jack => 11,
            Rank::Queen => 12,
            Rank::King => 13,
        }
    }

    /// The rank with ordinal `v`; the king for every `v` above 12.
    pub open spec fn with_value(v: int) -> Rank {
        if v <= 1 {
            Rank::Ace
        } else if v == 2 {
            Rank::Two
        } else if v == 3 {
            Rank::Three
        } else if v == 4 {
            Rank::Four
        } else if v == 5 {
            Rank::Five
        } else if v == 6 {
            Rank::Six
        } else if v == 7 {
            Rank::Seven
        } else if v == 8 {
            Rank::Eight
        } else if v == 9 {
            Rank::Nine
        } else if v == 10 {
            Rank::Ten
        } else if v == 11 {
            Rank::Jack
        } else if v == 12 {
            Rank::Queen
        } else {
            Rank::King
        }
    }

    /// All thirteen ranks in ascending order.
    pub open spec fn all() -> Seq<Rank> {
        Seq::new(13, |i: int| Rank::with_value(i + 1))
    }

    /// The rank that follows this one on the circle: the ace follows the king.
    pub open spec fn successor(self) -> Rank {
        if self == Rank::King {
            Rank::Ace
        } else {
            Rank::with_value(self.spec_value() + 1)
        }
    }

    /// Two ranks are adjacent when their ordinals differ by exactly 1, or by
    /// exactly 12 (ace and king).
    pub open spec fn is_adjacent(self, other: Rank) -> bool {
        let d = vstd::math::abs(self.spec_value() - other.spec_value());
        d == 1 || d == 12
    }

    /// The ranks in ascending order, ace first.
    pub fn iter() -> (ranks: Vec<Rank>)
        ensures
            ranks@ == Rank::all(),
    {
        let ranks = vec![
            Rank::Ace,
            Rank::Two,
            Rank::Three,
            Rank::Four,
            Rank::Five,
            Rank::Six,
            Rank::Seven,
            Rank::Eight,
            Rank::Nine,
            Rank::Ten,
            Rank::Jack,
            Rank::Queen,
            Rank::King,
        ];
        assert(ranks@ =~= Rank::all());
        ranks
    }

    #[verifier::when_used_as_spec(spec_value)]
    pub fn value(&self) -> (v: u8)
        ensures
            v == self.spec_value(),
            1 <= v <= 13,
    {
        match self {
            Rank::Ace => 1,
            Rank::Two => 2,
            Rank::Three => 3,
            Rank::Four => 4,
            Rank::Five => 5,
            Rank::Six => 6,
            Rank::Seven => 7,
            Rank::Eight => 8,
            Rank::Nine => 9,
            Rank::Ten => 10,
            Rank::Jack => 11,
            Rank::Queen => 12,
            Rank::King => 13,
        }
    }

    /// A rank is determined by its ordinal, which lies between 1 and 13.
    pub proof fn lemma_value_roundtrip(self)
        ensures
            1 <= self.spec_value() <= 13,
            Rank::with_value(self.spec_value() as int) == self,
    {
    }

    /// Every ordinal between 1 and 13 is the ordinal of the rank it names.
    pub proof fn lemma_with_value(v: int)
        requires
            1 <= v <= 13,
        ensures
            Rank::with_value(v).spec_value() == v,
    {
    }

    /// Adjacency is symmetric, and no rank is adjacent to itself.
    pub proof fn lemma_adjacent_symmetric(self, other: Rank)
        ensures
            self.is_adjacent(other) == other.is_adjacent(self),
            !self.is_adjacent(self),
    {
    }

    /// Adjacency is the neighbour relation of the circle of ranks: two ranks
    /// are adjacent exactly when one follows the other.
    pub proof fn lemma_adjacent_circular(self, other: Rank)
        ensures
            self.is_adjacent(other) <==> (other == self.successor() || self == other.successor()),
    {
    }
}

} // verus!
