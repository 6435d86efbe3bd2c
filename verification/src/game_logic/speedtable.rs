use vstd::prelude::*;
use rand::thread_rng;
use std::ops::IndexMut;
use crate::game_logic::card::Card;
use crate::game_logic::piles::{PlayerHands, PlayerIndexedPile, SideIndexedPile};
use crate::game_logic::player::Player;
use crate::game_logic::playerview::PlayerView;
use crate::game_logic::shuffle::shuffle_cards;
use crate::game_logic::side::Side;
use crate::game_logic::table_state::{first_empty, is_empty_hand, is_full, top, TableState};

verus! {

/// What a move can come to other than plain success. All but `GameWon` are
/// refusals, and a refused move leaves the table as it was.
#[derive(Debug, PartialEq, Eq, Structural)]
pub enum SpeedError {
    /// A draw with a used-up draw pile.
    NoCardToDraw,
    /// A draw with no empty slot in the hand.
    HandAlreadyFull,
    /// A placement from an empty slot, or from a slot that the hand does not
    /// have.
    NoCardToPlace,
    /// A placement onto an empty active pile.
    NoCardToPlaceOn,
    /// No refusal: the card was placed, and with it the player has won.
    GameWon,
    /// A placement of a card whose rank is not adjacent to that of the top
    /// card of the active pile.
    NotAdjacentCard,
    /// A flip with a used-up middle pile and fewer than two cards left to
    /// redistribute.
    NoCardToFlip,
}

/// The table of one game: all its piles and both hands.
#[derive(Debug)]
pub struct SpeedTable {
    pub middle_piles: SideIndexedPile,
    pub active_piles: SideIndexedPile,
    pub player_hands: PlayerHands,
    pub player_piles: PlayerIndexedPile,
}

impl View for SpeedTable {
    type V = TableState;

    open spec fn view(&self) -> TableState {
        TableState {
            middle_left: self.middle_piles.0@,
            middle_right: self.middle_piles.1@,
            active_left: self.active_piles.0@,
            active_right: self.active_piles.1@,
            hand1: self.player_hands.0@,
            hand2: self.player_hands.1@,
            pile1: self.player_piles.0@,
            pile2: self.player_piles.1@,
        }
    }
}

/// Takes the first `i` cards off the front of `deck`.
pub fn draw_cards(deck: &mut Vec<Card>, i: usize) -> (drawn: Vec<Card>)
    requires
        i <= old(deck)@.len(),
    ensures
        drawn@ == old(deck)@.subrange(0, i as int),
        final(deck)@ == old(deck)@.subrange(i as int, old(deck)@.len() as int),
{
    let mut rest = deck.split_off(i);
    std::mem::swap(deck, &mut rest);
    rest
}

/// The top card of `pile`, if it has one.
fn top_card(pile: &Vec<Card>) -> (card: Option<Card>)
    ensures
        card == top(pile@),
{
    if pile.len() == 0 {
        None
    } else {
        Some(pile[pile.len() - 1])
    }
}

impl SpeedTable {
    /// Deals `deck` from its front: seven cards to the left middle pile,
    /// seven to the right one, nineteen to the first player's draw pile and
    /// nineteen to the second player's. Active piles and hands start empty.
    pub fn deal(deck: Vec<Card>) -> (table: SpeedTable)
        requires
            deck@.len() == 52,
        ensures
            table@ == TableState::dealt(deck@),
    {
        let mut rest = deck;
        let ghost deck = rest@;
        let middle_left = draw_cards(&mut rest, 7);
        let middle_right = draw_cards(&mut rest, 7);
        let pile1 = draw_cards(&mut rest, 19);
        let pile2 = draw_cards(&mut rest, 19);
        let table = SpeedTable {
            middle_piles: SideIndexedPile(middle_left, middle_right),
            active_piles: SideIndexedPile(Vec::new(), Vec::new()),
            player_piles: PlayerIndexedPile(pile1, pile2),
            player_hands: PlayerHands([None; 4], [None; 4]),
        };
        proof {
            let dealt = TableState::dealt(deck);
            assert(table@.middle_right =~= dealt.middle_right);
            assert(table@.pile1 =~= dealt.pile1);
            assert(table@.pile2 =~= dealt.pile2);
            assert(table@.hand1 =~= dealt.hand1);
            assert(table@.hand2 =~= dealt.hand2);
            assert(table@ =~= dealt);
        }
        table
    }

    /// A table for a new game: the full deck, shuffled and dealt.
    pub fn new() -> (table: SpeedTable)
        ensures
            table@.is_deal(),
            table@.holds_deck(),
            table@.middle_left.len() == 7,
            table@.middle_right.len() == 7,
            table@.pile1.len() == 19,
            table@.pile2.len() == 19,
            table@.active_left.len() == 0,
            table@.active_right.len() == 0,
            is_empty_hand(table@.hand1),
            is_empty_hand(table@.hand2),
    {
        let mut deck = Card::full_deck();
        let mut rng = thread_rng();
        shuffle_cards(&mut deck, &mut rng);
        proof {
            vstd::seq_lib::to_multiset_len(deck@);
            vstd::seq_lib::to_multiset_len(Card::deck());
        }
        let table = SpeedTable::deal(deck);
        proof {
            table@.lemma_deal_holds_deck();
        }
        table
    }

    /// Whether the middle and active piles together hold at least two cards.
    fn pool_has_two(&self) -> (enough: bool)
        ensures
            enough == (self@.middle_pool().len() >= 2),
    {
        let a: usize = self.middle_piles.0.len();
        let b: usize = self.middle_piles.1.len();
        let c: usize = self.active_piles.0.len();
        let d: usize = self.active_piles.1.len();
        if a < 2 && b < 2 && c < 2 && d < 2 {
            a + b + c + d >= 2
        } else {
            true
        }
    }

    /// Lays `shuffled` out as the two middle piles: the left one gets the
    /// first half, rounded down, the right one the rest. The active piles
    /// are cleared: their cards are expected to be among `shuffled`.
    pub fn redeal_middle(&mut self, shuffled: Vec<Card>)
        ensures
            final(self)@ == old(self)@.after_redeal(shuffled@),
    {
        let mut right = shuffled;
        let ghost shuffled = right@;
        let half: usize = right.len() / 2;
        let left = draw_cards(&mut right, half);
        self.middle_piles = SideIndexedPile(left, right);
        self.active_piles = SideIndexedPile(Vec::new(), Vec::new());
        assert(self@ =~= old(self)@.after_redeal(shuffled));
    }

    /// Turns the top card of each middle pile onto the active pile of its
    /// side.
    fn turn_top_cards(&mut self)
        requires
            !old(self)@.needs_reshuffle(),
        ensures
            final(self)@ == old(self)@.after_turn(),
    {
        let left = self.middle_piles.index_mut(Side::LEFT).pop().unwrap();
        self.active_piles.index_mut(Side::LEFT).push(left);
        let right = self.middle_piles.index_mut(Side::RIGHT).pop().unwrap();
        self.active_piles.index_mut(Side::RIGHT).push(right);
        assert(self@ =~= old(self)@.after_turn());
    }

    /// Moves the top card of each middle pile onto the active pile of its
    /// side. Where a middle pile is used up, the middle and active piles are
    /// first gathered, shuffled and split into two new middle piles; with
    /// fewer than two cards to split the flip fails as `NoCardToFlip` and
    /// changes nothing.
    pub fn flip_middle_cards(&mut self) -> (result: Result<(), SpeedError>)
        ensures
            result == old(self)@.flip_outcome(),
            old(self)@.flips_to(final(self)@, result),
            final(self)@.all_cards() == old(self)@.all_cards(),
    {
        if self.middle_piles[Side::LEFT].is_empty() || self.middle_piles[Side::RIGHT].is_empty() {
            if !self.pool_has_two() {
                return Err(SpeedError::NoCardToFlip);
            }
            let mut combined_pile: Vec<Card> = Vec::new();
            combined_pile.append(self.middle_piles.index_mut(Side::LEFT));
            combined_pile.append(self.middle_piles.index_mut(Side::RIGHT));
            combined_pile.append(self.active_piles.index_mut(Side::LEFT));
            combined_pile.append(self.active_piles.index_mut(Side::RIGHT));
            assert(combined_pile@ =~= old(self)@.middle_pool());
            let mut rng = thread_rng();
            shuffle_cards(&mut combined_pile, &mut rng);
            let ghost shuffled = combined_pile@;
            proof {
                vstd::seq_lib::to_multiset_len(shuffled);
                vstd::seq_lib::to_multiset_len(old(self)@.middle_pool());
            }
            self.redeal_middle(combined_pile);
            assert(self@ =~= old(self)@.after_redeal(shuffled));
            self.turn_top_cards();
            proof {
                assert(self@ == old(self)@.after_redeal(shuffled).after_turn());
                old(self)@.lemma_flip_keeps_cards(self@, Ok(()));
            }
            return Ok(());
        }
        self.turn_top_cards();
        proof {
            old(self)@.lemma_flip_keeps_cards(self@, Ok(()));
        }
        Ok(())
    }

    /// The index of the first empty slot in `player`'s hand, if there is one.
    pub fn get_first_empty_hand_idx(&self, player: Player) -> (idx: Option<usize>)
        ensures
            idx is None <==> is_full(self@.hand(player)),
            idx is Some ==> idx->0 == first_empty(self@.hand(player)) && idx->0 < 4,
    {
        let hand = &self.player_hands[player];
        let mut i: usize = 0;
        while i < 4
            invariant
                i <= 4,
                hand@ == self@.hand(player),
                forall|j: int| 0 <= j < i ==> hand@[j] is Some,
            decreases 4 - i,
        {
            if hand[i].is_none() {
                proof {
                    crate::game_logic::table_state::lemma_first_empty_is(hand@, i as int);
                }
                return Some(i);
            }
            i += 1;
        }
        None
    }

    /// Whether `player` has won: nothing is left to draw and the hand is
    /// empty.
    pub fn check_for_win(&self, player: Player) -> (won: bool)
        ensures
            won == self@.has_won(player),
    {
        let hand = &self.player_hands[player];
        self.player_piles[player].len() == 0 && hand[0].is_none() && hand[1].is_none()
            && hand[2].is_none() && hand[3].is_none()
    }

    /// Moves the top card of `player`'s draw pile to the first empty slot of
    /// the hand. With a full hand the draw fails as `HandAlreadyFull`; with
    /// room in the hand and nothing to draw, as `NoCardToDraw`. A failed draw
    /// changes nothing.
    pub fn player_draw_card(&mut self, player: Player) -> (result: Result<(), SpeedError>)
        ensures
            result == old(self)@.draw_outcome(player),
            final(self)@ == old(self)@.after_draw(player),
            final(self)@.all_cards() == old(self)@.all_cards(),
    {
        proof {
            self@.lemma_draw_keeps_cards(player);
        }
        let first_empty_index = match self.get_first_empty_hand_idx(player) {
            Some(idx) => idx,
            None => {
                return Err(SpeedError::HandAlreadyFull);
            },
        };
        let card_to_draw = match self.player_piles.index_mut(player).pop() {
            Some(card) => card,
            None => {
                return Err(SpeedError::NoCardToDraw);
            },
        };
        let hand = self.player_hands.index_mut(player);
        hand[first_empty_index] = Some(card_to_draw);
        assert(self@ =~= old(self)@.after_draw(player));
        Ok(())
    }

    /// Places the card in slot `hand_index` of `player`'s hand on the active
    /// pile on `side`. The slot must hold a card (else `NoCardToPlace`), the
    /// pile must have a top card (else `NoCardToPlaceOn`), and the two must
    /// be adjacent in rank (else `NotAdjacentCard`); a refused placement
    /// changes nothing. An accepted card is placed; where that leaves the
    /// player with an empty hand and no card to draw, the result is
    /// `GameWon`.
    pub fn place_card(&mut self, player: Player, side: Side, hand_index: usize) -> (result: Result<
        (),
        SpeedError,
    >)
        ensures
            result == old(self)@.place_outcome(player, side, hand_index as int),
            final(self)@ == old(self)@.after_place(player, side, hand_index as int),
            final(self)@.all_cards() == old(self)@.all_cards(),
    {
        proof {
            self@.lemma_place_keeps_cards(player, side, hand_index as int);
        }
        if hand_index >= 4 {
            return Err(SpeedError::NoCardToPlace);
        }
        let card_to_place = match self.player_hands[player][hand_index] {
            Some(card) => card,
            None => {
                return Err(SpeedError::NoCardToPlace);
            },
        };
        let card_place_on = match top_card(&self.active_piles[side]) {
            Some(card) => card,
            None => {
                return Err(SpeedError::NoCardToPlaceOn);
            },
        };
        if card_to_place.is_adjacent_card(&card_place_on) {
            self.active_piles.index_mut(side).push(card_to_place);
            let hand = self.player_hands.index_mut(player);
            hand[hand_index] = None;
            assert(self@ =~= old(self)@.after_place(player, side, hand_index as int));
            if self.check_for_win(player) {
                return Err(SpeedError::GameWon);
            }
            Ok(())
        } else {
            Err(SpeedError::NotAdjacentCard)
        }
    }

    /// What `player` sees of the table: the own hand, the top cards of the
    /// active piles, and of everything else only whether a card is there.
    pub fn get_player_view(&self, player: Player) -> (view: PlayerView)
        ensures
            view.shows(self@, player),
    {
        let opponent = player.opponent();
        let theirs = &self.player_hands[opponent];
        let view = PlayerView {
            player_hand: self.player_hands[player],
            active_cards: [
                top_card(&self.active_piles[Side::LEFT]),
                top_card(&self.active_piles[Side::RIGHT]),
            ],
            opponent_hand: [
                theirs[0].is_some(),
                theirs[1].is_some(),
                theirs[2].is_some(),
                theirs[3].is_some(),
            ],
            opponent_pile: self.player_piles[opponent].len() != 0,
            middle_piles: [
                !self.middle_piles[Side::LEFT].is_empty(),
                !self.middle_piles[Side::RIGHT].is_empty(),
            ],
        };
        assert(view.active_cards@ =~= seq![top(self@.active_left), top(self@.active_right)]);
        assert(view.opponent_hand@ =~= Seq::new(4, |i: int| self@.hand(opponent)[i] is Some));
        assert(view.middle_piles@ =~= seq![
            self@.middle_left.len() != 0,
            self@.middle_right.len() != 0,
        ]);
        view
    }
}

} // verus!
