use vstd::prelude::*;
use std::ops::{Index, IndexMut};
use crate::game_logic::card::Card;
use crate::game_logic::side::Side;

verus! {

/// Two stacks of cards, one on each side of the table. The top of a stack is
/// its last card.
#[derive(Debug)]
pub struct SideIndexedPile(pub Vec<Card>, pub Vec<Card>);

impl SideIndexedPile {
    /// The cards of the stack on `side`, bottom first.
    pub open spec fn pile(&self, side: Side) -> Seq<Card> {
        match side {
            Side::LEFT => self.0@,
            Side::RIGHT => self.1@,
        }
    }
}

impl vstd::std_specs::core::IndexSpecImpl<Side> for SideIndexedPile {
    open spec fn index_req(&self, index: &Side) -> bool {
        true
    }
}

impl Index<Side> for SideIndexedPile {
    type Output = Vec<Card>;

    fn index(&self, side: Side) -> (pile: &Vec<Card>)
        ensures
            pile@ == self.pile(side),
    {
        match side {
            Side::LEFT => &self.0,
            Side::RIGHT => &self.1,
        }
    }
}

impl IndexMut<Side> for SideIndexedPile {
    /// Lends out the stack on `side`. What the borrower leaves there is the
    /// new stack on that side; the other side is not touched.
    fn index_mut(&mut self, side: Side) -> (pile: &mut Vec<Card>)
        ensures
            pile@ == old(self).pile(side),
            final(self).pile(side) == final(pile)@,
            side == Side::LEFT ==> final(self).1 == old(self).1,
            side == Side::RIGHT ==> final(self).0 == old(self).0,
    {
        match side {
            Side::LEFT => &mut self.0,
            Side::RIGHT => &mut self.1,
        }
    }
}

} // verus!
