//! Speed: the rules engine of a two-player real-time card game, and the
//! decisions of the session that arbitrates the moves of both players.

pub mod game_logic;
pub mod game_session;
pub mod player_action;
pub mod server_message;

pub use game_session::{Broadcast, GameSession, SessionState};
pub use player_action::PlayerAction;
pub use server_message::{ServerAction, ServerMessage};
