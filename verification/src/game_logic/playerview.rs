use vstd::prelude::*;
use crate::game_logic::card::Card;
use crate::game_logic::player::Player;
use crate::game_logic::table_state::{top, TableState};

verus! {

/// What one player sees of the table. Of the opponent's hand and of the
/// piles that lie face down it tells only where a card is, never which.
#[derive(Clone, Copy, Debug, PartialEq, Eq)]
pub struct PlayerView {
    /// The player's own hand, slot by slot.
    pub player_hand: [Option<Card>; 4],
    /// The top cards of the left and the right active pile.
    pub active_cards: [Option<Card>; 2],
    /// Which slots of the opponent's hand hold a card.
    pub opponent_hand: [bool; 4],
    /// Whether the opponent's draw pile still has a card.
    pub opponent_pile: bool,
    /// Whether the left and the right middle pile still have a card.
    pub middle_piles: [bool; 2],
}

impl PlayerView {
    /// Whether this is what `player` sees of `table`.
    pub open spec fn shows(&self, table: TableState, player: Player) -> bool {
        let opponent = player.spec_opponent();
        &&& self.player_hand@ == table.hand(player)
        &&& self.active_cards@ == seq![top(table.active_left), top(table.active_right)]
        &&& self.opponent_hand@ == Seq::new(4, |i: int| table.hand(opponent)[i] is Some)
        &&& self.opponent_pile == (table.pile(opponent).len() != 0)
        &&& self.middle_piles@ == seq![
            table.middle_left.len() != 0,
            table.middle_right.len() != 0,
        ]
    }

    /// The top cards of the active piles are open to both players: what
    /// either of them sees there is the top card of each pile that has one.
    pub proof fn lemma_active_cards_open(&self, other: &PlayerView, table: TableState)
        requires
            self.shows(table, Player::PLAYER1),
            other.shows(table, Player::PLAYER2),
        ensures
            self.active_cards@ == other.active_cards@,
            table.active_left.len() > 0 ==> self.active_cards@[0] == Some(table.active_left.last()),
            table.active_right.len() > 0 ==> self.active_cards@[1] == Some(
                table.active_right.last(),
            ),
            table.active_left.len() == 0 ==> self.active_cards@[0] is None,
            table.active_right.len() == 0 ==> self.active_cards@[1] is None,
    {
    }

    /// A view tells no more than it should. Two tables look the same to a
    /// player if they agree on that player's hand, on the top cards of the
    /// active piles, on which slots of the opponent's hand are occupied, and
    /// on whether the opponent's draw pile and each middle pile have a card;
    /// whatever else differs between them, which cards the opponent holds
    /// or what lies in any pile, does not show.
    pub proof fn lemma_view_hides(&self, table: TableState, other: TableState, player: Player)
        requires
            table.well_formed(),
            other.well_formed(),
            self.shows(table, player),
            looks_alike(table, other, player),
        ensures
            self.shows(other, player),
    {
        let opponent = player.spec_opponent();
        assert(Seq::new(4, |i: int| table.hand(opponent)[i] is Some) =~= Seq::new(
            4,
            |i: int| other.hand(opponent)[i] is Some,
        ));
    }
}

/// Whether `player` cannot tell `table` from `other` by what is open to that
/// player.
pub open spec fn looks_alike(table: TableState, other: TableState, player: Player) -> bool {
    let opponent = player.spec_opponent();
    &&& table.hand(player) == other.hand(player)
    &&& top(table.active_left) == top(other.active_left)
    &&& top(table.active_right) == top(other.active_right)
    &&& forall|i: int| 0 <= i < 4 ==> (table.hand(opponent)[i] is Some <==> other.hand(opponent)[i] is Some)
    &&& (table.pile(opponent).len() == 0 <==> other.pile(opponent).len() == 0)
    &&& (table.middle_left.len() == 0 <==> other.middle_left.len() == 0)
    &&& (table.middle_right.len() == 0 <==> other.middle_right.len() == 0)
}

} // verus!
