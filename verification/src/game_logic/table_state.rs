use vstd::prelude::*;
use vstd::multiset::Multiset;
use crate::game_logic::card::Card;
use crate::game_logic::player::Player;
use crate::game_logic::side::Side;
use crate::game_logic::speedtable::SpeedError;

verus! {

/// The table as a mathematical value: what lies where. Every pile is a
/// sequence with its top card last; every hand is a sequence of slots.
///
/// The rules of play are stated on this value, as functions from the table
/// before a move to the table after it and to the move's outcome.
pub struct TableState {
    pub middle_left: Seq<Card>,
    pub middle_right: Seq<Card>,
    pub active_left: Seq<Card>,
    pub active_right: Seq<Card>,
    pub hand1: Seq<Option<Card>>,
    pub hand2: Seq<Option<Card>>,
    pub pile1: Seq<Card>,
    pub pile2: Seq<Card>,
}

/// The number of slots in a hand.
pub open spec fn hand_size() -> int {
    4
}

/// The index of the first empty slot of `hand`, or the hand's length where
/// every slot is occupied.
pub open spec fn first_empty(hand: Seq<Option<Card>>) -> int
    decreases hand.len(),
{
    if hand.len() == 0 || hand[0] is None {
        0
    } else {
        1 + first_empty(hand.drop_first())
    }
}

/// Whether every slot of `hand` is occupied.
pub open spec fn is_full(hand: Seq<Option<Card>>) -> bool {
    forall|j: int| 0 <= j < hand.len() ==> hand[j] is Some
}

/// Whether every slot of `hand` is empty.
pub open spec fn is_empty_hand(hand: Seq<Option<Card>>) -> bool {
    forall|j: int| 0 <= j < hand.len() ==> hand[j] is None
}

/// The cards in a slot: one or none.
pub open spec fn slot_cards(slot: Option<Card>) -> Multiset<Card> {
    match slot {
        Some(card) => Multiset::singleton(card),
        None => Multiset::empty(),
    }
}

/// The cards held in the four slots of `hand`.
#[verifier::opaque]
pub open spec fn hand_cards(hand: Seq<Option<Card>>) -> Multiset<Card> {
    slot_cards(hand[0]).add(slot_cards(hand[1])).add(slot_cards(hand[2])).add(slot_cards(hand[3]))
}

/// The top card of a pile, if it has one.
pub open spec fn top(pile: Seq<Card>) -> Option<Card> {
    if pile.len() == 0 {
        None
    } else {
        Some(pile.last())
    }
}

/// `first_empty` names the least index of an empty slot: every slot before
/// it is occupied, and unless it is the hand's length the slot at it is empty.
pub proof fn lemma_first_empty(hand: Seq<Option<Card>>)
    ensures
        0 <= first_empty(hand) <= hand.len(),
        forall|j: int| 0 <= j < first_empty(hand) ==> hand[j] is Some,
        first_empty(hand) < hand.len() ==> hand[first_empty(hand)] is None,
        first_empty(hand) == hand.len() <==> is_full(hand),
    decreases hand.len(),
{
    if hand.len() == 0 || hand[0] is None {
    } else {
        let rest = hand.drop_first();
        lemma_first_empty(rest);
        assert forall|j: int| 0 <= j < first_empty(hand) implies hand[j] is Some by {
            if j > 0 {
                assert(hand[j] == rest[j - 1]);
            }
        }
        if first_empty(hand) < hand.len() {
            assert(hand[first_empty(hand)] == rest[first_empty(rest)]);
        }
        if is_full(hand) {
            assert forall|j: int| 0 <= j < rest.len() implies rest[j] is Some by {
                assert(rest[j] == hand[j + 1]);
            }
        }
    }
}

/// An empty slot with only occupied slots before it is the first empty slot.
pub proof fn lemma_first_empty_is(hand: Seq<Option<Card>>, i: int)
    requires
        0 <= i < hand.len(),
        hand[i] is None,
        forall|j: int| 0 <= j < i ==> hand[j] is Some,
    ensures
        first_empty(hand) == i,
{
    lemma_first_empty(hand);
    let f = first_empty(hand);
    if f < i {
        assert(hand[f] is Some);
    }
    if f > i {
        assert(hand[i] is Some);
    }
}

impl TableState {
    /// The middle pile on `side`: face down, feeding the active pile there.
    pub open spec fn middle(self, side: Side) -> Seq<Card> {
        match side {
            Side::LEFT => self.middle_left,
            Side::RIGHT => self.middle_right,
        }
    }

    /// The active pile on `side`: the pile that players place cards on.
    pub open spec fn active(self, side: Side) -> Seq<Card> {
        match side {
            Side::LEFT => self.active_left,
            Side::RIGHT => self.active_right,
        }
    }

    /// The hand of `player`.
    pub open spec fn hand(self, player: Player) -> Seq<Option<Card>> {
        match player {
            Player::PLAYER1 => self.hand1,
            Player::PLAYER2 => self.hand2,
        }
    }

    /// The draw pile of `player`.
    pub open spec fn pile(self, player: Player) -> Seq<Card> {
        match player {
            Player::PLAYER1 => self.pile1,
            Player::PLAYER2 => self.pile2,
        }
    }

    /// This table with `cards` as the active pile on `side`.
    pub open spec fn with_active(self, side: Side, cards: Seq<Card>) -> TableState {
        match side {
            Side::LEFT => TableState { active_left: cards, ..self },
            Side::RIGHT => TableState { active_right: cards, ..self },
        }
    }

    /// This table with `hand` as the hand of `player`.
    pub open spec fn with_hand(self, player: Player, hand: Seq<Option<Card>>) -> TableState {
        match player {
            Player::PLAYER1 => TableState { hand1: hand, ..self },
            Player::PLAYER2 => TableState { hand2: hand, ..self },
        }
    }

    /// This table with `cards` as the draw pile of `player`.
    pub open spec fn with_pile(self, player: Player, cards: Seq<Card>) -> TableState {
        match player {
            Player::PLAYER1 => TableState { pile1: cards, ..self },
            Player::PLAYER2 => TableState { pile2: cards, ..self },
        }
    }

    /// Both hands have their four slots.
    pub open spec fn well_formed(self) -> bool {
        self.hand1.len() == hand_size() && self.hand2.len() == hand_size()
    }

    /// Every card on the table, counted as often as it occurs there.
    pub open spec fn all_cards(self) -> Multiset<Card> {
        self.middle_cards().add(hand_cards(self.hand1)).add(hand_cards(self.hand2)).add(
            self.pile1.to_multiset(),
        ).add(self.pile2.to_multiset())
    }

    /// The cards of the two middle piles and the two active piles.
    pub open spec fn middle_cards(self) -> Multiset<Card> {
        self.middle_left.to_multiset().add(self.middle_right.to_multiset()).add(
            self.active_left.to_multiset(),
        ).add(self.active_right.to_multiset())
    }

    /// The table holds the deck: each of the 52 cards lies in exactly one
    /// place.
    pub open spec fn holds_deck(self) -> bool {
        self.well_formed() && self.all_cards() == Card::deck().to_multiset()
    }

    /// The table right after `deck` was dealt: seven cards to each middle
    /// pile, left first, then nineteen to each player's draw pile, the first
    /// player first. Active piles and hands are empty.
    pub open spec fn dealt(deck: Seq<Card>) -> TableState {
        TableState {
            middle_left: deck.subrange(0, 7),
            middle_right: deck.subrange(7, 14),
            active_left: Seq::empty(),
            active_right: Seq::empty(),
            hand1: Seq::new(4, |i: int| None::<Card>),
            hand2: Seq::new(4, |i: int| None::<Card>),
            pile1: deck.subrange(14, 33),
            pile2: deck.subrange(33, 52),
        }
    }

    /// Whether this is a table right after the deck was shuffled and dealt:
    /// the deal of some arrangement of the 52 cards.
    pub open spec fn is_deal(self) -> bool {
        exists|deck: Seq<Card>|
            #![trigger TableState::dealt(deck)]
            deck.to_multiset() == Card::deck().to_multiset() && self == TableState::dealt(deck)
    }

    /// Whether `player` has won: the draw pile is used up and the hand is
    /// empty.
    pub open spec fn has_won(self, player: Player) -> bool {
        self.pile(player).len() == 0 && is_empty_hand(self.hand(player))
    }

    /// What a draw by `player` comes to.
    pub open spec fn draw_outcome(self, player: Player) -> Result<(), SpeedError> {
        if is_full(self.hand(player)) {
            Err(SpeedError::HandAlreadyFull)
        } else if self.pile(player).len() == 0 {
            Err(SpeedError::NoCardToDraw)
        } else {
            Ok(())
        }
    }

    /// The table after a draw by `player`: where the draw succeeds, the top
    /// card of the player's draw pile has moved to the first empty slot of
    /// the hand. A failed draw changes nothing.
    pub open spec fn after_draw(self, player: Player) -> TableState {
        if self.draw_outcome(player) is Ok {
            let hand = self.hand(player);
            let pile = self.pile(player);
            self.with_pile(player, pile.drop_last()).with_hand(
                player,
                hand.update(first_empty(hand), Some(pile.last())),
            )
        } else {
            self
        }
    }

    /// Why `player` cannot place the card in slot `hand_index` on the
    /// active pile on `side`, if anything stands against it. The checks come
    /// in this order: the slot, the pile, the ranks.
    pub open spec fn place_refusal(self, player: Player, side: Side, hand_index: int) -> Option<
        SpeedError,
    > {
        let hand = self.hand(player);
        let active = self.active(side);
        if !(0 <= hand_index < hand.len()) || hand[hand_index] is None {
            Some(SpeedError::NoCardToPlace)
        } else if active.len() == 0 {
            Some(SpeedError::NoCardToPlaceOn)
        } else if !hand[hand_index]->0.rank.is_adjacent(active.last().rank) {
            Some(SpeedError::NotAdjacentCard)
        } else {
            None
        }
    }

    /// The table after `player` tried to place the card in slot
    /// `hand_index` on the active pile on `side`: an accepted card lies on
    /// top of that pile and has left its slot. A refused placement changes
    /// nothing.
    pub open spec fn after_place(self, player: Player, side: Side, hand_index: int) -> TableState {
        if self.place_refusal(player, side, hand_index) is None {
            let hand = self.hand(player);
            self.with_active(side, self.active(side).push(hand[hand_index]->0)).with_hand(
                player,
                hand.update(hand_index, None),
            )
        } else {
            self
        }
    }

    /// What a placement comes to: the reason of its refusal; or, once the
    /// card is placed, the win that it brought, if it did.
    pub open spec fn place_outcome(self, player: Player, side: Side, hand_index: int) -> Result<
        (),
        SpeedError,
    > {
        match self.place_refusal(player, side, hand_index) {
            Some(refusal) => Err(refusal),
            None => if self.after_place(player, side, hand_index).has_won(player) {
                Err(SpeedError::GameWon)
            } else {
                Ok(())
            },
        }
    }

    /// Whether a flip must first gather and redistribute the middle cards:
    /// one of the middle piles is used up.
    pub open spec fn needs_reshuffle(self) -> bool {
        self.middle_left.len() == 0 || self.middle_right.len() == 0
    }

    /// The cards that a reshuffle gathers, in the order in which it gathers
    /// them: both middle piles, then both active piles, left before right.
    pub open spec fn middle_pool(self) -> Seq<Card> {
        self.middle_left + self.middle_right + self.active_left + self.active_right
    }

    /// The table after the gathered cards came back as `shuffled` and were
    /// split into two new middle piles: the left one gets the first half,
    /// rounded down, the right one the rest. The active piles are empty.
    pub open spec fn after_redeal(self, shuffled: Seq<Card>) -> TableState {
        let half = shuffled.len() / 2;
        TableState {
            middle_left: shuffled.subrange(0, half as int),
            middle_right: shuffled.subrange(half as int, shuffled.len() as int),
            active_left: Seq::empty(),
            active_right: Seq::empty(),
            ..self
        }
    }

    /// The table after the top card of each middle pile was turned onto the
    /// active pile of its side.
    pub open spec fn after_turn(self) -> TableState {
        TableState {
            middle_left: self.middle_left.drop_last(),
            middle_right: self.middle_right.drop_last(),
            active_left: self.active_left.push(self.middle_left.last()),
            active_right: self.active_right.push(self.middle_right.last()),
            ..self
        }
    }

    /// The table after the top cards were turned `n` times in a row.
    pub open spec fn after_turns(self, n: nat) -> TableState
        decreases n,
    {
        if n == 0 {
            self
        } else {
            self.after_turn().after_turns((n - 1) as nat)
        }
    }

    /// What a flip comes to: it is refused where a middle pile is used up
    /// and fewer than two cards are left to redistribute.
    pub open spec fn flip_outcome(self) -> Result<(), SpeedError> {
        if self.needs_reshuffle() && self.middle_pool().len() < 2 {
            Err(SpeedError::NoCardToFlip)
        } else {
            Ok(())
        }
    }

    /// Whether a flip can take this table to `next` with `outcome`.
    ///
    /// While both middle piles have cards, a flip turns their top cards.
    /// Otherwise it gathers the middle pool, shuffles it, splits it and then
    /// turns the top cards: the order after the shuffle is not determined,
    /// only that it holds the same cards. With fewer than two cards in the
    /// pool one side would stay without a card to turn: the flip is refused
    /// and changes nothing.
    pub open spec fn flips_to(self, next: TableState, outcome: Result<(), SpeedError>) -> bool {
        if !self.needs_reshuffle() {
            outcome is Ok && next == self.after_turn()
        } else if self.middle_pool().len() < 2 {
            outcome == Err::<(), SpeedError>(SpeedError::NoCardToFlip) && next == self
        } else {
            outcome is Ok && exists|shuffled: Seq<Card>|
                #![trigger self.after_redeal(shuffled)]
                shuffled.to_multiset() == self.middle_pool().to_multiset() && next
                    == self.after_redeal(shuffled).after_turn()
        }
    }

    /// Whether `n` flips in a row can take this table to `next`.
    pub open spec fn flips_to_in(self, next: TableState, n: nat) -> bool
        decreases n,
    {
        if n == 0 {
            next == self
        } else {
            exists|mid: TableState, outcome: Result<(), SpeedError>|
                #![trigger self.flips_to(mid, outcome)]
                self.flips_to(mid, outcome) && mid.flips_to_in(next, (n - 1) as nat)
        }
    }
}

} // verus!
