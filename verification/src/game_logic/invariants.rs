//! What every move keeps true of the table, proved on the table as a
//! mathematical value.

use vstd::prelude::*;
use vstd::multiset::Multiset;
use vstd::seq_lib::{lemma_multiset_commutative, to_multiset_build, to_multiset_len};
use crate::game_logic::card::{lemma_deck_holds_once, Card};
use crate::game_logic::player::Player;
use crate::game_logic::side::Side;
use crate::game_logic::speedtable::SpeedError;
use crate::game_logic::table_state::{
    first_empty,
    hand_cards,
    is_empty_hand,
    is_full,
    lemma_first_empty,
    slot_cards,
    top,
    TableState,
};

verus! {

/// A pile with a card holds its top card and the cards below it.
proof fn lemma_pile_cards(pile: Seq<Card>)
    requires
        pile.len() > 0,
    ensures
        pile.to_multiset() == pile.drop_last().to_multiset().insert(pile.last()),
{
    assert(pile =~= pile.drop_last().push(pile.last()));
    to_multiset_build(pile.drop_last(), pile.last());
}

/// How often `card` lies in a slot: once or not at all.
spec fn slot_count(slot: Option<Card>, card: Card) -> nat {
    if slot == Some(card) {
        1
    } else {
        0
    }
}

/// How often `card` lies in the four slots of `hand`.
spec fn hand_count(hand: Seq<Option<Card>>, card: Card) -> nat {
    slot_count(hand[0], card) + slot_count(hand[1], card) + slot_count(hand[2], card) + slot_count(
        hand[3],
        card,
    )
}

proof fn lemma_slot_count(slot: Option<Card>, card: Card)
    ensures
        slot_cards(slot).count(card) == slot_count(slot, card),
{
}

/// A card lies in a hand as often as it lies in the four slots together.
proof fn lemma_hand_count(hand: Seq<Option<Card>>, card: Card)
    ensures
        hand_cards(hand).count(card) == hand_count(hand, card),
{
    reveal(hand_cards);
    lemma_slot_count(hand[0], card);
    lemma_slot_count(hand[1], card);
    lemma_slot_count(hand[2], card);
    lemma_slot_count(hand[3], card);
}

/// Writing a slot changes the count of a card by what left the slot and
/// what came into it.
proof fn lemma_hand_count_update(hand: Seq<Option<Card>>, i: int, slot: Option<Card>, card: Card)
    requires
        hand.len() == 4,
        0 <= i < 4,
    ensures
        hand_count(hand.update(i, slot), card) + slot_count(hand[i], card) == hand_count(hand, card)
            + slot_count(slot, card),
{
}

/// Writing a slot of a hand takes the slot's old content out of the hand's
/// cards and puts the new content in.
proof fn lemma_hand_cards_update(hand: Seq<Option<Card>>, i: int, slot: Option<Card>)
    requires
        hand.len() == 4,
        0 <= i < 4,
    ensures
        hand_cards(hand.update(i, slot)).add(slot_cards(hand[i])) == hand_cards(hand).add(
            slot_cards(slot),
        ),
{
    let next = hand.update(i, slot);
    let before = hand_cards(hand).add(slot_cards(slot));
    let after = hand_cards(next).add(slot_cards(hand[i]));
    assert forall|card: Card| after.count(card) == before.count(card) by {
        lemma_hand_count(hand, card);
        lemma_hand_count(next, card);
        lemma_slot_count(slot, card);
        lemma_slot_count(hand[i], card);
        lemma_hand_count_update(hand, i, slot, card);
    }
    assert(after =~= before);
}

/// A hand of four empty slots holds no card.
proof fn lemma_empty_hand_cards(hand: Seq<Option<Card>>)
    requires
        hand.len() == 4,
        is_empty_hand(hand),
    ensures
        hand_cards(hand) == Multiset::<Card>::empty(),
{
    assert forall|card: Card| hand_cards(hand).count(card) == 0 by {
        lemma_hand_count(hand, card);
        assert(hand[0] is None && hand[1] is None && hand[2] is None && hand[3] is None);
    }
    assert(hand_cards(hand) =~= Multiset::<Card>::empty());
}

/// An empty pile holds no card.
proof fn lemma_no_cards(pile: Seq<Card>)
    requires
        pile.len() == 0,
    ensures
        pile.to_multiset() == Multiset::<Card>::empty(),
{
    to_multiset_len(pile);
    vstd::multiset::lemma_multiset_empty_len(pile.to_multiset());
    assert(pile.to_multiset() =~= Multiset::<Card>::empty());
}

/// Cutting a sequence in two keeps its cards.
proof fn lemma_cut_cards(cards: Seq<Card>, at: int)
    requires
        0 <= at <= cards.len(),
    ensures
        cards.to_multiset() == cards.subrange(0, at).to_multiset().add(
            cards.subrange(at, cards.len() as int).to_multiset(),
        ),
{
    assert(cards =~= cards.subrange(0, at) + cards.subrange(at, cards.len() as int));
    lemma_multiset_commutative(cards.subrange(0, at), cards.subrange(at, cards.len() as int));
}

impl TableState {
    /// The middle pool holds exactly the cards of the middle and active
    /// piles.
    pub proof fn lemma_pool_cards(self)
        ensures
            self.middle_pool().to_multiset() == self.middle_cards(),
            self.middle_pool().len() == self.middle_left.len() + self.middle_right.len()
                + self.active_left.len() + self.active_right.len(),
    {
        lemma_multiset_commutative(self.middle_left, self.middle_right);
        lemma_multiset_commutative(self.middle_left + self.middle_right, self.active_left);
        lemma_multiset_commutative(
            self.middle_left + self.middle_right + self.active_left,
            self.active_right,
        );
    }

    /// Dealing a deck of 52 cards puts every card of it on the table, once
    /// for each time it lies in the deck: seven and seven in the middle,
    /// nineteen and nineteen to draw, none in the active piles or the hands.
    pub proof fn lemma_dealt(deck: Seq<Card>)
        requires
            deck.len() == 52,
        ensures
            TableState::dealt(deck).well_formed(),
            TableState::dealt(deck).all_cards() == deck.to_multiset(),
            TableState::dealt(deck).middle_left.len() == 7,
            TableState::dealt(deck).middle_right.len() == 7,
            TableState::dealt(deck).pile1.len() == 19,
            TableState::dealt(deck).pile2.len() == 19,
            TableState::dealt(deck).active_left.len() == 0,
            TableState::dealt(deck).active_right.len() == 0,
            is_empty_hand(TableState::dealt(deck).hand1),
            is_empty_hand(TableState::dealt(deck).hand2),
    {
        let table = TableState::dealt(deck);
        lemma_cut_cards(deck, 33);
        lemma_cut_cards(deck.subrange(0, 33), 14);
        lemma_cut_cards(deck.subrange(0, 14), 7);
        assert(deck.subrange(0, 33).subrange(0, 14) =~= deck.subrange(0, 14));
        assert(deck.subrange(0, 33).subrange(14, 33) =~= deck.subrange(14, 33));
        assert(deck.subrange(0, 14).subrange(0, 7) =~= deck.subrange(0, 7));
        assert(deck.subrange(0, 14).subrange(7, 14) =~= deck.subrange(7, 14));
        lemma_no_cards(table.active_left);
        lemma_no_cards(table.active_right);
        lemma_empty_hand_cards(table.hand1);
        lemma_empty_hand_cards(table.hand2);
        assert(table.all_cards() =~= deck.to_multiset());
    }

    /// A freshly dealt table holds the deck: 52 cards, each exactly once,
    /// seven in each middle pile and nineteen in each draw pile, with the
    /// active piles and both hands empty.
    pub proof fn lemma_deal_holds_deck(self)
        requires
            self.is_deal(),
        ensures
            self.holds_deck(),
            self.all_cards().len() == 52,
            forall|card: Card| self.all_cards().count(card) == 1,
            self.middle_left.len() == 7,
            self.middle_right.len() == 7,
            self.pile1.len() == 19,
            self.pile2.len() == 19,
            self.active_left.len() == 0,
            self.active_right.len() == 0,
            is_empty_hand(self.hand1),
            is_empty_hand(self.hand2),
    {
        let deck = choose|deck: Seq<Card>|
            #![trigger TableState::dealt(deck)]
            deck.to_multiset() == Card::deck().to_multiset() && self == TableState::dealt(deck);
        to_multiset_len(deck);
        to_multiset_len(Card::deck());
        TableState::lemma_dealt(deck);
        self.lemma_holds_deck_once();
    }

    /// On a table that holds the deck every card lies exactly once.
    pub proof fn lemma_holds_deck_once(self)
        requires
            self.holds_deck(),
        ensures
            self.all_cards().len() == 52,
            forall|card: Card| self.all_cards().count(card) == 1,
    {
        to_multiset_len(Card::deck());
        assert forall|card: Card| self.all_cards().count(card) == 1 by {
            lemma_deck_holds_once(card);
        }
    }

    /// A draw fails on a full hand as `HandAlreadyFull`, and with room in the
    /// hand but nothing to draw as `NoCardToDraw`. It succeeds in every other
    /// case, and a failed draw leaves the whole table as it was.
    pub proof fn lemma_draw_outcome(self, player: Player)
        ensures
            is_full(self.hand(player)) <==> self.draw_outcome(player) == Err::<(), SpeedError>(
                SpeedError::HandAlreadyFull,
            ),
            !is_full(self.hand(player)) && self.pile(player).len() == 0 <==> self.draw_outcome(
                player,
            ) == Err::<(), SpeedError>(SpeedError::NoCardToDraw),
            self.draw_outcome(player) is Err ==> self.after_draw(player) == self,
    {
    }

    /// A successful draw moves one card: the draw pile loses its top card,
    /// the first empty slot of the hand receives it, and every other slot,
    /// the other player's hand and pile, and the middle and active piles
    /// stay as they were.
    pub proof fn lemma_draw_effect(self, player: Player)
        requires
            self.well_formed(),
            self.draw_outcome(player) is Ok,
        ensures
            ({
                let next = self.after_draw(player);
                let slot = first_empty(self.hand(player));
                &&& 0 <= slot < 4
                &&& self.hand(player)[slot] is None
                &&& next.hand(player)[slot] == Some(self.pile(player).last())
                &&& forall|j: int| 0 <= j < 4 && j != slot ==> next.hand(player)[j] == self.hand(player)[j]
                &&& next.pile(player) == self.pile(player).drop_last()
                &&& next.pile(player).len() == self.pile(player).len() - 1
                &&& next.hand(player.spec_opponent()) == self.hand(player.spec_opponent())
                &&& next.pile(player.spec_opponent()) == self.pile(player.spec_opponent())
                &&& next.middle_left == self.middle_left
                &&& next.middle_right == self.middle_right
                &&& next.active_left == self.active_left
                &&& next.active_right == self.active_right
            }),
    {
        lemma_first_empty(self.hand(player));
    }

    /// A draw, failed or not, keeps the cards of the table: none is lost and
    /// none is doubled.
    pub proof fn lemma_draw_keeps_cards(self, player: Player)
        requires
            self.well_formed(),
        ensures
            self.after_draw(player).well_formed(),
            self.after_draw(player).all_cards() == self.all_cards(),
            self.holds_deck() ==> self.after_draw(player).holds_deck(),
    {
        if self.draw_outcome(player) is Ok {
            let hand = self.hand(player);
            let pile = self.pile(player);
            let slot = first_empty(hand);
            let next = self.after_draw(player);
            lemma_first_empty(hand);
            lemma_pile_cards(pile);
            lemma_hand_cards_update(hand, slot, Some(pile.last()));
            assert(slot_cards(hand[slot]) =~= Multiset::empty());
            assert(hand_cards(next.hand(player)) =~= hand_cards(hand).insert(pile.last()));
            assert(next.all_cards() =~= self.all_cards());
        }
    }

    /// A placement is refused where the slot is empty, or the active pile
    /// is, or the ranks are not adjacent, and a refused placement leaves the
    /// whole table as it was: the card stays in its slot and the active pile
    /// keeps its cards. Only an accepted placement can be `Ok` or `GameWon`.
    pub proof fn lemma_place_refused(self, player: Player, side: Side, hand_index: int)
        ensures
            self.place_refusal(player, side, hand_index) is Some ==> {
                &&& self.place_outcome(player, side, hand_index) == Err::<(), SpeedError>(
                    self.place_refusal(player, side, hand_index)->0,
                )
                &&& self.after_place(player, side, hand_index) == self
            },
            self.place_refusal(player, side, hand_index) != Some(SpeedError::GameWon),
            self.place_refusal(player, side, hand_index) != Some(SpeedError::NoCardToDraw),
            self.place_refusal(player, side, hand_index) != Some(SpeedError::HandAlreadyFull),
            self.place_refusal(player, side, hand_index) != Some(SpeedError::NoCardToFlip),
            self.place_outcome(player, side, hand_index) is Ok || self.place_outcome(
                player,
                side,
                hand_index,
            ) == Err::<(), SpeedError>(SpeedError::GameWon) <==> self.place_refusal(
                player,
                side,
                hand_index,
            ) is None,
    {
    }

    /// An accepted placement moves one card: it leaves its slot empty and
    /// becomes the top card of the chosen active pile. Its rank is adjacent
    /// to that of the card it covers. Everything else stays as it was.
    pub proof fn lemma_place_effect(self, player: Player, side: Side, hand_index: int)
        requires
            self.well_formed(),
            self.place_refusal(player, side, hand_index) is None,
        ensures
            ({
                let next = self.after_place(player, side, hand_index);
                let other_side = if side == Side::LEFT {
                    Side::RIGHT
                } else {
                    Side::LEFT
                };
                &&& 0 <= hand_index < 4
                &&& self.hand(player)[hand_index] is Some
                &&& self.active(side).len() > 0
                &&& self.hand(player)[hand_index]->0.rank.is_adjacent(self.active(side).last().rank)
                &&& next.hand(player)[hand_index] is None
                &&& forall|j: int|
                    0 <= j < 4 && j != hand_index ==> next.hand(player)[j] == self.hand(player)[j]
                &&& next.active(side) == self.active(side).push(self.hand(player)[hand_index]->0)
                &&& next.active(other_side) == self.active(other_side)
                &&& next.hand(player.spec_opponent()) == self.hand(player.spec_opponent())
                &&& next.pile1 == self.pile1
                &&& next.pile2 == self.pile2
                &&& next.middle_left == self.middle_left
                &&& next.middle_right == self.middle_right
            }),
    {
    }

    /// A placement, refused or not, keeps the cards of the table.
    pub proof fn lemma_place_keeps_cards(self, player: Player, side: Side, hand_index: int)
        requires
            self.well_formed(),
        ensures
            self.after_place(player, side, hand_index).well_formed(),
            self.after_place(player, side, hand_index).all_cards() == self.all_cards(),
            self.holds_deck() ==> self.after_place(player, side, hand_index).holds_deck(),
    {
        if self.place_refusal(player, side, hand_index) is None {
            let hand = self.hand(player);
            let card = hand[hand_index]->0;
            let next = self.after_place(player, side, hand_index);
            to_multiset_build(self.active(side), card);
            lemma_hand_cards_update(hand, hand_index, None);
            assert(slot_cards(None::<Card>) =~= Multiset::empty());
            assert(hand_cards(next.hand(player)).insert(card) =~= hand_cards(hand));
            assert(next.all_cards() =~= self.all_cards());
        }
    }

    /// A placement wins exactly when it is accepted, the player has no card
    /// left to draw, and the placed card was the only one in the hand. So a
    /// player who empties the hand slot by slot wins with the last card, not
    /// before.
    pub proof fn lemma_win(self, player: Player, side: Side, hand_index: int)
        requires
            self.well_formed(),
        ensures
            self.place_outcome(player, side, hand_index) == Err::<(), SpeedError>(
                SpeedError::GameWon,
            ) <==> {
                &&& self.place_refusal(player, side, hand_index) is None
                &&& self.pile(player).len() == 0
                &&& forall|j: int| 0 <= j < 4 && j != hand_index ==> self.hand(player)[j] is None
            },
    {
        if self.place_refusal(player, side, hand_index) is None {
            let next = self.after_place(player, side, hand_index);
            let hand = self.hand(player);
            assert(next.hand(player) == hand.update(hand_index, None));
            assert(next.pile(player) == self.pile(player));
            if next.has_won(player) {
                assert forall|j: int| 0 <= j < 4 && j != hand_index implies hand[j] is None by {
                    assert(next.hand(player)[j] is None);
                }
            }
            if self.pile(player).len() == 0 && (forall|j: int|
                0 <= j < 4 && j != hand_index ==> hand[j] is None) {
                assert forall|j: int| 0 <= j < next.hand(player).len() implies next.hand(
                    player,
                )[j] is None by {
                    if j != hand_index {
                        assert(hand[j] is None);
                    }
                }
            }
        }
    }

    /// Turning the top cards keeps the cards of the middle and active piles,
    /// takes one card off each middle pile and adds it to the active pile of
    /// its side.
    pub proof fn lemma_turn(self)
        requires
            !self.needs_reshuffle(),
        ensures
            self.after_turn().middle_cards() == self.middle_cards(),
            self.after_turn().middle_left.len() == self.middle_left.len() - 1,
            self.after_turn().middle_right.len() == self.middle_right.len() - 1,
            self.after_turn().active_left.len() == self.active_left.len() + 1,
            self.after_turn().active_right.len() == self.active_right.len() + 1,
            top(self.after_turn().active_left) == top(self.middle_left),
            top(self.after_turn().active_right) == top(self.middle_right),
    {
        lemma_pile_cards(self.middle_left);
        lemma_pile_cards(self.middle_right);
        to_multiset_build(self.active_left, self.middle_left.last());
        to_multiset_build(self.active_right, self.middle_right.last());
        assert(self.after_turn().middle_cards() =~= self.middle_cards());
    }

    /// Laying out an arrangement of the middle pool as the new middle piles
    /// keeps the cards of the middle and active piles. The left pile gets
    /// half of them, rounded down, the right pile the others.
    pub proof fn lemma_redeal(self, shuffled: Seq<Card>)
        requires
            shuffled.to_multiset() == self.middle_pool().to_multiset(),
        ensures
            self.after_redeal(shuffled).middle_cards() == self.middle_cards(),
            shuffled.len() == self.middle_pool().len(),
            self.after_redeal(shuffled).middle_left.len() == shuffled.len() / 2,
            self.after_redeal(shuffled).middle_right.len() == shuffled.len() - shuffled.len() / 2,
            self.after_redeal(shuffled).active_left.len() == 0,
            self.after_redeal(shuffled).active_right.len() == 0,
    {
        let next = self.after_redeal(shuffled);
        to_multiset_len(shuffled);
        to_multiset_len(self.middle_pool());
        self.lemma_pool_cards();
        lemma_cut_cards(shuffled, (shuffled.len() / 2) as int);
        lemma_no_cards(next.active_left);
        lemma_no_cards(next.active_right);
        assert(next.middle_cards() =~= shuffled.to_multiset());
    }

    /// A flip touches neither hands nor draw piles, and keeps the cards of
    /// the table.
    pub proof fn lemma_flip_keeps_cards(self, next: TableState, outcome: Result<(), SpeedError>)
        requires
            self.flips_to(next, outcome),
        ensures
            next.hand1 == self.hand1,
            next.hand2 == self.hand2,
            next.pile1 == self.pile1,
            next.pile2 == self.pile2,
            next.middle_cards() == self.middle_cards(),
            next.all_cards() == self.all_cards(),
            self.holds_deck() ==> next.holds_deck(),
    {
        if !self.needs_reshuffle() {
            self.lemma_turn();
        } else if self.middle_pool().len() >= 2 {
            let shuffled = choose|shuffled: Seq<Card>|
                #![trigger self.after_redeal(shuffled)]
                shuffled.to_multiset() == self.middle_pool().to_multiset() && next
                    == self.after_redeal(shuffled).after_turn();
            self.lemma_redeal(shuffled);
            self.after_redeal(shuffled).lemma_turn();
        }
    }

    /// A flip is refused exactly when a middle pile is used up and fewer
    /// than two cards lie in the middle pool; the table then stays as it
    /// was. Every other flip succeeds.
    pub proof fn lemma_flip_outcome(self, next: TableState, outcome: Result<(), SpeedError>)
        requires
            self.flips_to(next, outcome),
        ensures
            outcome is Ok || outcome == Err::<(), SpeedError>(SpeedError::NoCardToFlip),
            outcome is Err <==> self.needs_reshuffle() && self.middle_pool().len() < 2,
            outcome is Err ==> next == self,
    {
    }

    /// While both middle piles have cards a flip turns their top cards, and
    /// nothing else: each middle pile loses its top card to the active pile
    /// of its side.
    pub proof fn lemma_flip_plain(self, next: TableState, outcome: Result<(), SpeedError>)
        requires
            self.flips_to(next, outcome),
            !self.needs_reshuffle(),
        ensures
            outcome is Ok,
            next == self.after_turn(),
            next.middle_left == self.middle_left.drop_last(),
            next.middle_right == self.middle_right.drop_last(),
            next.active_left == self.active_left.push(self.middle_left.last()),
            next.active_right == self.active_right.push(self.middle_right.last()),
    {
    }

    /// A flip that finds a middle pile used up redistributes the `n` cards
    /// of the middle pool: afterwards each active pile holds the one card
    /// that was turned, the left side holds half of the `n` cards, rounded
    /// down, and the right side the others.
    pub proof fn lemma_flip_reshuffle(self, next: TableState, outcome: Result<(), SpeedError>)
        requires
            self.flips_to(next, outcome),
            self.needs_reshuffle(),
            self.middle_pool().len() >= 2,
        ensures
            outcome is Ok,
            next.active_left.len() == 1,
            next.active_right.len() == 1,
            next.middle_left.len() + 1 == self.middle_pool().len() / 2,
            next.middle_right.len() + 1 == self.middle_pool().len() - self.middle_pool().len() / 2,
            next.middle_left.len() + next.middle_right.len() + next.active_left.len()
                + next.active_right.len() == self.middle_pool().len(),
            next.middle_cards() == self.middle_cards(),
    {
        let shuffled = choose|shuffled: Seq<Card>|
            #![trigger self.after_redeal(shuffled)]
            shuffled.to_multiset() == self.middle_pool().to_multiset() && next
                == self.after_redeal(shuffled).after_turn();
        self.lemma_redeal(shuffled);
        self.after_redeal(shuffled).lemma_turn();
    }

    /// Turning the top cards `n` times, with at least `n` cards in each
    /// middle pile, takes `n` cards off each middle pile and adds them to the
    /// active pile of their side. The cards of the middle and active piles
    /// stay the same, and so does everything else.
    pub proof fn lemma_turns(self, n: nat)
        requires
            n <= self.middle_left.len(),
            n <= self.middle_right.len(),
        ensures
            self.after_turns(n).middle_left == self.middle_left.take(self.middle_left.len() - n),
            self.after_turns(n).middle_right == self.middle_right.take(
                self.middle_right.len() - n,
            ),
            self.after_turns(n).active_left.len() == self.active_left.len() + n,
            self.after_turns(n).active_right.len() == self.active_right.len() + n,
            self.after_turns(n).middle_cards() == self.middle_cards(),
            self.after_turns(n).middle_pool().len() == self.middle_pool().len(),
            self.after_turns(n).hand1 == self.hand1,
            self.after_turns(n).hand2 == self.hand2,
            self.after_turns(n).pile1 == self.pile1,
            self.after_turns(n).pile2 == self.pile2,
        decreases n,
    {
        if n == 0 {
            assert(self.middle_left.take(self.middle_left.len() as int) =~= self.middle_left);
            assert(self.middle_right.take(self.middle_right.len() as int) =~= self.middle_right);
        } else {
            let mid = self.after_turn();
            self.lemma_turn();
            mid.lemma_turns((n - 1) as nat);
            self.lemma_pool_cards();
            mid.lemma_pool_cards();
            assert(mid.middle_left.take(mid.middle_left.len() - (n - 1)) =~= self.middle_left.take(
                self.middle_left.len() - n,
            ));
            assert(mid.middle_right.take(mid.middle_right.len() - (n - 1))
                =~= self.middle_right.take(self.middle_right.len() - n));
        }
    }

    /// With at least `n` cards in each middle pile, `n` flips in a row
    /// reshuffle nothing: each turns the top cards, and so their result is
    /// determined.
    pub proof fn lemma_flips_turn(self, next: TableState, n: nat)
        requires
            n <= self.middle_left.len(),
            n <= self.middle_right.len(),
            self.flips_to_in(next, n),
        ensures
            next == self.after_turns(n),
        decreases n,
    {
        if n > 0 {
            let (mid, outcome) = choose|mid: TableState, outcome: Result<(), SpeedError>|
                #![trigger self.flips_to(mid, outcome)]
                self.flips_to(mid, outcome) && mid.flips_to_in(next, (n - 1) as nat);
            self.lemma_turn();
            mid.lemma_flips_turn(next, (n - 1) as nat);
        }
    }

    /// Flips use up the middle piles and then reshuffle. Where the shorter
    /// middle pile has `n` cards, `n` flips in a row leave it empty, with all
    /// cards of the middle pool still in the pool. The flip after them
    /// redistributes the pool: it succeeds if the pool has two cards or more,
    /// leaves one card on each active pile, and splits the pool between the
    /// two sides, half of it, rounded down, to the left and the other cards
    /// to the right.
    pub proof fn lemma_flips_until_reshuffle(
        self,
        drained: TableState,
        next: TableState,
        outcome: Result<(), SpeedError>,
        n: nat,
    )
        requires
            n <= self.middle_left.len(),
            n <= self.middle_right.len(),
            n == self.middle_left.len() || n == self.middle_right.len(),
            self.flips_to_in(drained, n),
            drained.flips_to(next, outcome),
        ensures
            drained.needs_reshuffle(),
            drained.middle_pool().len() == self.middle_pool().len(),
            drained.middle_cards() == self.middle_cards(),
            n >= 1 ==> self.middle_pool().len() >= 2,
            self.middle_pool().len() >= 2 ==> {
                let total = self.middle_pool().len();
                &&& outcome is Ok
                &&& next.active_left.len() == 1
                &&& next.active_right.len() == 1
                &&& next.middle_left.len() + next.active_left.len() == total / 2
                &&& next.middle_right.len() + next.active_right.len() == total - total / 2
                &&& next.middle_cards() == self.middle_cards()
            },
    {
        self.lemma_flips_turn(drained, n);
        self.lemma_turns(n);
        self.lemma_pool_cards();
        if drained.middle_pool().len() >= 2 {
            drained.lemma_flip_reshuffle(next, outcome);
        }
    }
}

} // verus!
