use vstd::prelude::*;
use crate::game_logic::player::Player;
use crate::game_logic::playerview::PlayerView;
use crate::game_logic::table_state::TableState;

verus! {

/// What a message tells its receiver to do with the view that comes with it.
#[derive(Clone, Copy, Debug, PartialEq, Eq, Structural)]
pub enum ServerAction {
    /// The first view of a game.
    SetBoard,
    /// The view after a move was tried, whether or not it was accepted.
    NormalMove,
    /// The receiver has won.
    GameWon,
    /// The receiver has lost.
    GameLost,
}

/// A message to one player: an action and what that player now sees.
#[derive(Clone, Copy, Debug, PartialEq, Eq)]
pub struct ServerMessage {
    pub action: ServerAction,
    pub player_view: PlayerView,
}

impl ServerMessage {
    /// Whether this message carries `action` and what `receiver` sees of
    /// `table`.
    pub open spec fn tells(&self, table: TableState, receiver: Player, action: ServerAction) -> bool {
        self.action == action && self.player_view.shows(table, receiver)
    }
}

} // verus!
