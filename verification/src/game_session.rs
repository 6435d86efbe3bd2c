//! The decisions of a game session. A session owns the table, takes one
//! move at a time from whichever player sent one, and answers every move
//! with a pair of messages, one for each player. Receiving and sending are
//! left to the caller.

use vstd::prelude::*;
use crate::game_logic::player::Player;
use crate::game_logic::speedtable::{SpeedError, SpeedTable};
use crate::game_logic::table_state::TableState;
use crate::player_action::PlayerAction;
use crate::server_message::{ServerAction, ServerMessage};

verus! {

/// Where a session stands.
#[derive(Clone, Copy, Debug, PartialEq, Eq, Structural)]
pub enum SessionState {
    /// The game is on: either player may move.
    AwaitingMove,
    /// The game is over and the given player has won. No move is taken any
    /// more.
    GameEnded(Player),
}

/// The two messages that answer a move. They belong together: both are to be
/// sent, each to its player.
#[derive(Clone, Copy, Debug, PartialEq, Eq)]
pub struct Broadcast {
    pub player1: ServerMessage,
    pub player2: ServerMessage,
}

impl Broadcast {
    /// Whether each message shows its player the given table, with the
    /// given action.
    pub open spec fn tells(
        &self,
        table: TableState,
        to_player1: ServerAction,
        to_player2: ServerAction,
    ) -> bool {
        self.player1.tells(table, Player::PLAYER1, to_player1) && self.player2.tells(
            table,
            Player::PLAYER2,
            to_player2,
        )
    }

    /// The message for `player`.
    pub fn message_for(&self, player: Player) -> (message: ServerMessage)
        ensures
            message == (match player {
                Player::PLAYER1 => self.player1,
                Player::PLAYER2 => self.player2,
            }),
    {
        match player {
            Player::PLAYER1 => self.player1,
            Player::PLAYER2 => self.player2,
        }
    }
}

/// What the move `action` of `player` comes to on `table`.
pub open spec fn move_outcome(table: TableState, player: Player, action: PlayerAction) -> Result<
    (),
    SpeedError,
> {
    match action {
        PlayerAction::DrawCard => table.draw_outcome(player),
        PlayerAction::Flip => table.flip_outcome(),
        PlayerAction::PlaceCard(hand_index, side) => table.place_outcome(
            player,
            side,
            hand_index as int,
        ),
    }
}

/// Whether the move `action` of `player` can take `table` to `next`. Draws
/// and placements determine the next table; a flip that reshuffles leaves
/// the order of the reshuffled cards open.
pub open spec fn move_leads_to(
    table: TableState,
    next: TableState,
    player: Player,
    action: PlayerAction,
) -> bool {
    match action {
        PlayerAction::DrawCard => next == table.after_draw(player),
        PlayerAction::Flip => table.flips_to(next, table.flip_outcome()),
        PlayerAction::PlaceCard(hand_index, side) => next == table.after_place(
            player,
            side,
            hand_index as int,
        ),
    }
}

/// The action sent to `receiver` after a move of `mover` came to `outcome`:
/// a win tells the mover of the win and the other player of the loss; every
/// other outcome, accepted or refused, is a normal move.
pub open spec fn reply_action(outcome: Result<(), SpeedError>, mover: Player, receiver: Player)
    -> ServerAction {
    if outcome == Err::<(), SpeedError>(SpeedError::GameWon) {
        if receiver == mover {
            ServerAction::GameWon
        } else {
            ServerAction::GameLost
        }
    } else {
        ServerAction::NormalMove
    }
}

/// The state of the session after a move of `mover` came to `outcome`: a
/// win ends the game, nothing else does.
pub open spec fn state_after(outcome: Result<(), SpeedError>, mover: Player) -> SessionState {
    if outcome == Err::<(), SpeedError>(SpeedError::GameWon) {
        SessionState::GameEnded(mover)
    } else {
        SessionState::AwaitingMove
    }
}

/// Applies the move `action` of `player` to `table` and returns what it came
/// to.
pub fn apply_move(table: &mut SpeedTable, player: Player, action: PlayerAction) -> (outcome: Result<
    (),
    SpeedError,
>)
    ensures
        outcome == move_outcome(old(table)@, player, action),
        move_leads_to(old(table)@, final(table)@, player, action),
        final(table)@.all_cards() == old(table)@.all_cards(),
{
    match action {
        PlayerAction::DrawCard => table.player_draw_card(player),
        PlayerAction::Flip => table.flip_middle_cards(),
        PlayerAction::PlaceCard(hand_index, side) => table.place_card(player, side, hand_index),
    }
}

/// The pair of messages that shows each player the table, with the given
/// actions.
pub fn broadcast(table: &SpeedTable, to_player1: ServerAction, to_player2: ServerAction) -> (sent:
    Broadcast)
    ensures
        sent.tells(table@, to_player1, to_player2),
{
    Broadcast {
        player1: ServerMessage {
            action: to_player1,
            player_view: table.get_player_view(Player::PLAYER1),
        },
        player2: ServerMessage {
            action: to_player2,
            player_view: table.get_player_view(Player::PLAYER2),
        },
    }
}

/// The action to send to `receiver` after a move of `mover` came to
/// `outcome`.
pub fn action_for(outcome: &Result<(), SpeedError>, mover: Player, receiver: Player) -> (action:
    ServerAction)
    ensures
        action == reply_action(*outcome, mover, receiver),
{
    match outcome {
        Err(SpeedError::GameWon) => {
            if receiver == mover {
                ServerAction::GameWon
            } else {
                ServerAction::GameLost
            }
        },
        _ => ServerAction::NormalMove,
    }
}

/// One game between two players: the table and the state of play.
#[derive(Debug)]
pub struct GameSession {
    pub table: SpeedTable,
    pub state: SessionState,
}

impl GameSession {
    /// Opens a session on `table`. The messages show each player the board
    /// as it is set.
    pub fn start(table: SpeedTable) -> (opened: (GameSession, Broadcast))
        ensures
            opened.0.table@ == table@,
            opened.0.state == SessionState::AwaitingMove,
            opened.1.tells(table@, ServerAction::SetBoard, ServerAction::SetBoard),
    {
        let sent = broadcast(&table, ServerAction::SetBoard, ServerAction::SetBoard);
        (GameSession { table, state: SessionState::AwaitingMove }, sent)
    }

    /// Takes the move `action` of `player`.
    ///
    /// While the game is on, the move is applied to the table and answered
    /// with a pair of messages that show the table after it. A win is told
    /// to the mover as won and to the other player as lost, and ends the
    /// game. Every other outcome, a refusal too, is told to both as a normal
    /// move: a refused move shows in an unchanged view.
    ///
    /// Once the game is over no move is taken: nothing changes and nothing
    /// is sent.
    pub fn step(&mut self, player: Player, action: PlayerAction) -> (sent: Option<Broadcast>)
        ensures
            old(self).state is GameEnded ==> {
                &&& sent is None
                &&& final(self).state == old(self).state
                &&& final(self).table@ == old(self).table@
            },
            old(self).state is AwaitingMove ==> {
                let outcome = move_outcome(old(self).table@, player, action);
                &&& move_leads_to(old(self).table@, final(self).table@, player, action)
                &&& final(self).state == state_after(outcome, player)
                &&& sent is Some
                &&& sent->0.tells(
                    final(self).table@,
                    reply_action(outcome, player, Player::PLAYER1),
                    reply_action(outcome, player, Player::PLAYER2),
                )
            },
            final(self).table@.all_cards() == old(self).table@.all_cards(),
    {
        match self.state {
            SessionState::GameEnded(_) => None,
            SessionState::AwaitingMove => {
                let outcome = apply_move(&mut self.table, player, action);
                let to_player1 = action_for(&outcome, player, Player::PLAYER1);
                let to_player2 = action_for(&outcome, player, Player::PLAYER2);
                match outcome {
                    Err(SpeedError::GameWon) => {
                        self.state = SessionState::GameEnded(player);
                    },
                    _ => {},
                }
                Some(broadcast(&self.table, to_player1, to_player2))
            },
        }
    }
}

} // verus!
