//! The game itself: cards, piles, the table and what each player sees of it.

pub mod card;
pub mod invariants;
pub mod piles;
pub mod player;
pub mod playerview;
pub mod rank;
pub mod shuffle;
pub mod side;
pub mod speedtable;
pub mod suit;
pub mod table_state;

pub use card::Card;
pub use player::Player;
pub use playerview::PlayerView;
pub use rank::Rank;
pub use side::Side;
pub use speedtable::SpeedError;
pub use speedtable::SpeedTable;
pub use suit::Suit;
pub use table_state::TableState;
