//! Pairs of piles and hands, addressed by a side of the table or by a player.

pub mod player_hands;
pub mod player_indexed;
pub mod side_indexed;

pub use player_hands::PlayerHands;
pub use player_indexed::PlayerIndexedPile;
pub use side_indexed::SideIndexedPile;
