use vstd::prelude::*;

verus! {

/// One of the two sides of the table: each has a middle pile and an active
/// pile.
#[derive(Clone, Copy, Debug, PartialEq, Eq, Structural)]
pub enum Side {
    LEFT,
    RIGHT,
}

} // verus!
