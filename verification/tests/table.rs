use rand::seq::SliceRandom;
use rand::RngCore;
use rand::SeedableRng;
use rand_chacha::ChaCha8Rng;
use speed::game_logic::piles::{PlayerHands, PlayerIndexedPile, SideIndexedPile};
use speed::game_logic::speedtable::draw_cards;
use speed::game_logic::{Card, Player, Rank, Side, SpeedError, SpeedTable, Suit};

/// A table dealt from the deck as `rng` shuffles it.
fn new_set_rng(rng: &mut dyn RngCore) -> SpeedTable {
    let mut deck = Card::full_deck();
    deck.shuffle(rng);
    SpeedTable::deal(deck)
}

fn card(rank: Rank, suit: Suit) -> Card {
    Card::new(rank, suit)
}

fn empty_table() -> SpeedTable {
    SpeedTable {
        middle_piles: SideIndexedPile(Vec::new(), Vec::new()),
        active_piles: SideIndexedPile(Vec::new(), Vec::new()),
        player_hands: PlayerHands([None; 4], [None; 4]),
        player_piles: PlayerIndexedPile(Vec::new(), Vec::new()),
    }
}

fn all_cards(table: &SpeedTable) -> Vec<Card> {
    let mut cards = Vec::new();
    cards.extend(table.middle_piles.0.iter().copied());
    cards.extend(table.middle_piles.1.iter().copied());
    cards.extend(table.active_piles.0.iter().copied());
    cards.extend(table.active_piles.1.iter().copied());
    cards.extend(table.player_piles.0.iter().copied());
    cards.extend(table.player_piles.1.iter().copied());
    cards.extend(table.player_hands.0.iter().flatten().copied());
    cards.extend(table.player_hands.1.iter().flatten().copied());
    cards
}

fn sizes(table: &SpeedTable) -> [usize; 8] {
    [
        table.middle_piles.0.len(),
        table.middle_piles.1.len(),
        table.active_piles.0.len(),
        table.active_piles.1.len(),
        table.player_piles.0.len(),
        table.player_piles.1.len(),
        table.player_hands.0.iter().flatten().count(),
        table.player_hands.1.iter().flatten().count(),
    ]
}

fn holds_deck(table: &SpeedTable) -> bool {
    let cards = all_cards(table);
    cards.len() == 52
        && Card::full_deck()
            .iter()
            .all(|c| cards.iter().filter(|d| *d == c).count() == 1)
}

#[test]
fn test_table_init() {
    let speedtable = SpeedTable::new();

    assert_eq!(speedtable.player_piles[Player::PLAYER1].len(), 19);
    assert_eq!(speedtable.player_piles[Player::PLAYER2].len(), 19);

    assert_eq!(speedtable.middle_piles[Side::LEFT].len(), 7);
    assert_eq!(speedtable.middle_piles[Side::RIGHT].len(), 7);

    assert_eq!(speedtable.active_piles[Side::LEFT].len(), 0);
    assert_eq!(speedtable.active_piles[Side::RIGHT].len(), 0);

    assert_eq!(
        speedtable.player_hands[Player::PLAYER1]
            .iter()
            .all(|x| x.is_none()),
        true
    );
    assert_eq!(
        speedtable.player_hands[Player::PLAYER2]
            .iter()
            .all(|x| x.is_none()),
        true
    );
}

#[test]
fn test_flip_middle() {
    let mut table = SpeedTable::new();

    let last_middle_left = table.middle_piles[Side::LEFT].get(6).unwrap().to_owned();
    let second_last_middle_left = table.middle_piles[Side::LEFT].get(5).unwrap().to_owned();

    let last_middle_right = table.middle_piles[Side::RIGHT].get(6).unwrap().to_owned();
    let second_last_middle_right = table.middle_piles[Side::RIGHT].get(5).unwrap().to_owned();

    let _ = table.flip_middle_cards();

    assert_eq!(
        table.active_piles[Side::LEFT].last().unwrap().to_owned(),
        last_middle_left
    );
    assert_eq!(
        table.middle_piles[Side::LEFT].last().unwrap().to_owned(),
        second_last_middle_left
    );

    assert_eq!(
        table.active_piles[Side::RIGHT].last().unwrap().to_owned(),
        last_middle_right
    );
    assert_eq!(
        table.middle_piles[Side::RIGHT].last().unwrap().to_owned(),
        second_last_middle_right
    );
}

#[test]
fn test_player_draw_card() {
    let mut table = SpeedTable::new();
    let player_hand = [
        Some(Card {
            rank: Rank::Ace,
            suit: Suit::Spades,
        }),
        None,
        Some(Card {
            rank: Rank::King,
            suit: Suit::Hearts,
        }),
        Some(Card {
            rank: Rank::Jack,
            suit: Suit::Diamonds,
        }),
    ];

    table.player_hands = PlayerHands(player_hand.clone(), player_hand.clone());

    let card_to_draw_player1 = table.player_piles[Player::PLAYER1][18];
    let card_to_draw_player2 = table.player_piles[Player::PLAYER2][18];

    let _ = table.player_draw_card(Player::PLAYER1);
    let _ = table.player_draw_card(Player::PLAYER2);

    assert_eq!(
        table.player_hands[Player::PLAYER1][1].unwrap(),
        card_to_draw_player1
    );
    assert_eq!(
        table.player_hands[Player::PLAYER2][1].unwrap(),
        card_to_draw_player2
    )
}

#[test]
fn test_place_card() {
    let mut rng = ChaCha8Rng::seed_from_u64(0);
    let mut table = new_set_rng(&mut rng);

    while let Ok(()) = table.player_draw_card(Player::PLAYER1) {}
    while let Ok(()) = table.player_draw_card(Player::PLAYER2) {}

    let _ = table.flip_middle_cards();

    assert_eq!(
        table.place_card(Player::PLAYER1, Side::RIGHT, 1),
        Err(SpeedError::NotAdjacentCard)
    );
    assert_eq!(table.place_card(Player::PLAYER1, Side::LEFT, 1), Ok(()));
}

#[test]
fn test_middle_reshuffle_equal() {
    let mut table = SpeedTable::new();
    for _ in 0..7 {
        let _ = table.flip_middle_cards();
    }

    assert_eq!(table.middle_piles[Side::LEFT].len(), 0);
    assert_eq!(table.middle_piles[Side::RIGHT].len(), 0);

    let _ = table.flip_middle_cards();

    assert_eq!(table.active_piles[Side::LEFT].len(), 1);
    assert_eq!(table.active_piles[Side::RIGHT].len(), 1);
    assert_eq!(table.middle_piles[Side::LEFT].len(), 6);
    assert_eq!(table.middle_piles[Side::RIGHT].len(), 6);
}

#[test]
fn test_middle_reshuffle_unequal() {
    let mut rng = ChaCha8Rng::seed_from_u64(0);
    let mut table = new_set_rng(&mut rng);

    while let Ok(()) = table.player_draw_card(Player::PLAYER1) {}
    while let Ok(()) = table.player_draw_card(Player::PLAYER2) {}

    let _ = table.flip_middle_cards();

    assert_eq!(table.place_card(Player::PLAYER1, Side::LEFT, 1), Ok(()));

    for _ in 0..6 {
        let _ = table.flip_middle_cards();
    }

    let _ = table.flip_middle_cards();

    assert_eq!(table.active_piles[Side::LEFT].len(), 1);
    assert_eq!(table.active_piles[Side::RIGHT].len(), 1);
    assert_eq!(table.middle_piles[Side::LEFT].len(), 6);
    assert_eq!(table.middle_piles[Side::RIGHT].len(), 7);

    for _ in 0..6 {
        let _ = table.flip_middle_cards();
    }

    assert_eq!(table.middle_piles[Side::LEFT].len(), 0);
    assert_eq!(table.middle_piles[Side::RIGHT].len(), 1);

    let _ = table.flip_middle_cards();

    assert_eq!(table.active_piles[Side::LEFT].len(), 1);
    assert_eq!(table.active_piles[Side::RIGHT].len(), 1);
    assert_eq!(table.middle_piles[Side::LEFT].len(), 6);
    assert_eq!(table.middle_piles[Side::RIGHT].len(), 7);
}

#[test]
fn draw_cards_takes_from_the_front() {
    let mut deck = Card::full_deck();
    let drawn = draw_cards(&mut deck, 3);
    assert_eq!(
        drawn,
        vec![
            card(Rank::Ace, Suit::Diamonds),
            card(Rank::Two, Suit::Diamonds),
            card(Rank::Three, Suit::Diamonds)
        ]
    );
    assert_eq!(deck.len(), 49);
    assert_eq!(deck[0], card(Rank::Four, Suit::Diamonds));
    let none = draw_cards(&mut deck, 0);
    assert!(none.is_empty());
    assert_eq!(deck.len(), 49);
    let rest = draw_cards(&mut deck, 49);
    assert_eq!(rest.len(), 49);
    assert!(deck.is_empty());
}

#[test]
fn deal_follows_the_order_of_the_deck() {
    let deck = Card::full_deck();
    let table = SpeedTable::deal(deck.clone());
    assert_eq!(table.middle_piles.0, deck[0..7].to_vec());
    assert_eq!(table.middle_piles.1, deck[7..14].to_vec());
    assert_eq!(table.player_piles.0, deck[14..33].to_vec());
    assert_eq!(table.player_piles.1, deck[33..52].to_vec());
    assert!(table.active_piles.0.is_empty());
    assert!(table.active_piles.1.is_empty());
    assert_eq!(table.player_hands.0, [None; 4]);
    assert_eq!(table.player_hands.1, [None; 4]);
}

#[test]
fn new_table_holds_52_distinct_cards() {
    let table = SpeedTable::new();
    assert_eq!(sizes(&table), [7, 7, 0, 0, 19, 19, 0, 0]);
    assert!(holds_deck(&table));
}

#[test]
fn new_table_is_shuffled() {
    let plain = all_cards(&SpeedTable::deal(Card::full_deck()));
    let shuffled = (0..4).any(|_| all_cards(&SpeedTable::new()) != plain);
    assert!(shuffled);
}

#[test]
fn seeded_deal_is_repeatable() {
    let a = new_set_rng(&mut ChaCha8Rng::seed_from_u64(7));
    let b = new_set_rng(&mut ChaCha8Rng::seed_from_u64(7));
    assert_eq!(all_cards(&a), all_cards(&b));
    assert!(holds_deck(&a));
}

#[test]
fn draw_fills_the_lowest_empty_slot() {
    let mut table = SpeedTable::deal(Card::full_deck());
    // The first player's draw pile is deck[14..33]; its top is deck[32].
    let deck = Card::full_deck();
    assert_eq!(table.player_draw_card(Player::PLAYER1), Ok(()));
    assert_eq!(table.player_hands.0, [Some(deck[32]), None, None, None]);
    assert_eq!(table.player_piles.0.len(), 18);
    assert_eq!(table.player_draw_card(Player::PLAYER1), Ok(()));
    assert_eq!(
        table.player_hands.0,
        [Some(deck[32]), Some(deck[31]), None, None]
    );
    table.player_hands.0[0] = None;
    assert_eq!(table.player_draw_card(Player::PLAYER1), Ok(()));
    assert_eq!(
        table.player_hands.0,
        [Some(deck[30]), Some(deck[31]), None, None]
    );
    assert_eq!(table.player_hands.1, [None; 4]);
    assert_eq!(table.player_piles.1.len(), 19);
}

#[test]
fn draw_on_a_full_hand_changes_nothing() {
    let mut table = SpeedTable::new();
    for _ in 0..4 {
        assert_eq!(table.player_draw_card(Player::PLAYER2), Ok(()));
    }
    let before = all_cards(&table);
    let before_sizes = sizes(&table);
    assert_eq!(before_sizes, [7, 7, 0, 0, 19, 15, 0, 4]);
    assert_eq!(
        table.player_draw_card(Player::PLAYER2),
        Err(SpeedError::HandAlreadyFull)
    );
    assert_eq!(sizes(&table), before_sizes);
    assert_eq!(all_cards(&table), before);
}

#[test]
fn draw_from_an_empty_pile_fails() {
    let mut table = empty_table();
    table.player_hands.0 = [Some(card(Rank::Two, Suit::Clubs)), None, None, None];
    assert_eq!(
        table.player_draw_card(Player::PLAYER1),
        Err(SpeedError::NoCardToDraw)
    );
    assert_eq!(
        table.player_hands.0,
        [Some(card(Rank::Two, Suit::Clubs)), None, None, None]
    );
}

#[test]
fn a_full_hand_is_reported_before_an_empty_pile() {
    let mut table = empty_table();
    table.player_hands.0 = [Some(card(Rank::Two, Suit::Clubs)); 4];
    assert_eq!(
        table.player_draw_card(Player::PLAYER1),
        Err(SpeedError::HandAlreadyFull)
    );
}

#[test]
fn first_empty_slot_and_win_check() {
    let mut table = empty_table();
    assert_eq!(table.get_first_empty_hand_idx(Player::PLAYER1), Some(0));
    assert!(table.check_for_win(Player::PLAYER1));
    table.player_hands.0 = [
        Some(card(Rank::Two, Suit::Clubs)),
        Some(card(Rank::Six, Suit::Clubs)),
        None,
        Some(card(Rank::Ten, Suit::Clubs)),
    ];
    assert_eq!(table.get_first_empty_hand_idx(Player::PLAYER1), Some(2));
    assert_eq!(table.get_first_empty_hand_idx(Player::PLAYER2), Some(0));
    assert!(!table.check_for_win(Player::PLAYER1));
    assert!(table.check_for_win(Player::PLAYER2));
    table.player_hands.0[2] = Some(card(Rank::Nine, Suit::Clubs));
    assert_eq!(table.get_first_empty_hand_idx(Player::PLAYER1), None);
    table.player_piles.1.push(card(Rank::Ace, Suit::Hearts));
    assert!(!table.check_for_win(Player::PLAYER2));
}

#[test]
fn place_moves_an_adjacent_card_onto_the_pile() {
    let mut table = empty_table();
    table.active_piles.0.push(card(Rank::Five, Suit::Hearts));
    table.active_piles.1.push(card(Rank::Nine, Suit::Hearts));
    table.player_hands.1 = [
        None,
        Some(card(Rank::Six, Suit::Spades)),
        Some(card(Rank::Queen, Suit::Spades)),
        None,
    ];
    assert_eq!(table.place_card(Player::PLAYER2, Side::LEFT, 1), Ok(()));
    assert_eq!(
        table.active_piles.0,
        vec![card(Rank::Five, Suit::Hearts), card(Rank::Six, Suit::Spades)]
    );
    assert_eq!(table.active_piles.1, vec![card(Rank::Nine, Suit::Hearts)]);
    assert_eq!(
        table.player_hands.1,
        [None, None, Some(card(Rank::Queen, Suit::Spades)), None]
    );
}

#[test]
fn place_of_a_non_adjacent_card_changes_nothing() {
    let mut table = empty_table();
    table.active_piles.0.push(card(Rank::Five, Suit::Hearts));
    table.player_hands.0 = [Some(card(Rank::Seven, Suit::Spades)), None, None, None];
    for _ in 0..2 {
        assert_eq!(
            table.place_card(Player::PLAYER1, Side::LEFT, 0),
            Err(SpeedError::NotAdjacentCard)
        );
        assert_eq!(
            table.player_hands.0,
            [Some(card(Rank::Seven, Suit::Spades)), None, None, None]
        );
        assert_eq!(table.active_piles.0, vec![card(Rank::Five, Suit::Hearts)]);
    }
    table.player_hands.0[0] = Some(card(Rank::Five, Suit::Spades));
    assert_eq!(
        table.place_card(Player::PLAYER1, Side::LEFT, 0),
        Err(SpeedError::NotAdjacentCard)
    );
}

#[test]
fn place_from_an_empty_slot_fails() {
    let mut table = empty_table();
    table.active_piles.0.push(card(Rank::Five, Suit::Hearts));
    table.player_hands.0 = [Some(card(Rank::Six, Suit::Spades)), None, None, None];
    assert_eq!(
        table.place_card(Player::PLAYER1, Side::LEFT, 1),
        Err(SpeedError::NoCardToPlace)
    );
    assert_eq!(
        table.place_card(Player::PLAYER1, Side::LEFT, 4),
        Err(SpeedError::NoCardToPlace)
    );
    assert_eq!(
        table.place_card(Player::PLAYER1, Side::LEFT, usize::MAX),
        Err(SpeedError::NoCardToPlace)
    );
    assert_eq!(
        table.place_card(Player::PLAYER2, Side::LEFT, 0),
        Err(SpeedError::NoCardToPlace)
    );
    assert_eq!(table.active_piles.0.len(), 1);
}

#[test]
fn place_on_an_empty_pile_fails() {
    let mut table = empty_table();
    table.active_piles.0.push(card(Rank::Five, Suit::Hearts));
    table.player_hands.0 = [Some(card(Rank::Six, Suit::Spades)), None, None, None];
    assert_eq!(
        table.place_card(Player::PLAYER1, Side::RIGHT, 0),
        Err(SpeedError::NoCardToPlaceOn)
    );
    // The slot is checked before the pile.
    assert_eq!(
        table.place_card(Player::PLAYER1, Side::RIGHT, 2),
        Err(SpeedError::NoCardToPlace)
    );
    assert_eq!(
        table.player_hands.0,
        [Some(card(Rank::Six, Suit::Spades)), None, None, None]
    );
}

#[test]
fn the_last_card_wins_and_not_an_earlier_one() {
    let mut table = empty_table();
    table.active_piles.0.push(card(Rank::Five, Suit::Hearts));
    table.active_piles.1.push(card(Rank::King, Suit::Hearts));
    table.player_piles.1.push(card(Rank::Two, Suit::Diamonds));
    table.player_hands.0 = [
        Some(card(Rank::Six, Suit::Spades)),
        Some(card(Rank::Ace, Suit::Spades)),
        Some(card(Rank::Seven, Suit::Spades)),
        Some(card(Rank::Two, Suit::Spades)),
    ];
    assert_eq!(table.place_card(Player::PLAYER1, Side::LEFT, 0), Ok(()));
    assert_eq!(table.place_card(Player::PLAYER1, Side::RIGHT, 1), Ok(()));
    assert_eq!(table.place_card(Player::PLAYER1, Side::LEFT, 2), Ok(()));
    assert_eq!(
        table.place_card(Player::PLAYER1, Side::RIGHT, 3),
        Err(SpeedError::GameWon)
    );
    // The winning card was placed all the same.
    assert_eq!(table.player_hands.0, [None; 4]);
    assert_eq!(
        table.active_piles.1,
        vec![
            card(Rank::King, Suit::Hearts),
            card(Rank::Ace, Suit::Spades),
            card(Rank::Two, Suit::Spades)
        ]
    );
}

#[test]
fn no_win_while_cards_are_left_to_draw() {
    let mut table = empty_table();
    table.active_piles.0.push(card(Rank::Five, Suit::Hearts));
    table.player_piles.0.push(card(Rank::Two, Suit::Diamonds));
    table.player_hands.0 = [None, None, Some(card(Rank::Four, Suit::Spades)), None];
    assert_eq!(table.place_card(Player::PLAYER1, Side::LEFT, 2), Ok(()));
    assert_eq!(table.player_hands.0, [None; 4]);
    // Drawing the last card does not win either: only a placement can.
    assert_eq!(table.player_draw_card(Player::PLAYER1), Ok(()));
    assert!(table.player_piles.0.is_empty());
    assert!(!table.check_for_win(Player::PLAYER1));
}

#[test]
fn flip_turns_the_top_cards() {
    let mut table = SpeedTable::deal(Card::full_deck());
    let deck = Card::full_deck();
    assert_eq!(table.flip_middle_cards(), Ok(()));
    assert_eq!(table.active_piles.0, vec![deck[6]]);
    assert_eq!(table.active_piles.1, vec![deck[13]]);
    assert_eq!(table.middle_piles.0, deck[0..6].to_vec());
    assert_eq!(table.middle_piles.1, deck[7..13].to_vec());
    assert_eq!(table.flip_middle_cards(), Ok(()));
    assert_eq!(table.active_piles.0, vec![deck[6], deck[5]]);
    assert_eq!(table.active_piles.1, vec![deck[13], deck[12]]);
}

#[test]
fn flip_reshuffles_when_a_middle_pile_is_used_up() {
    let mut table = SpeedTable::new();
    for _ in 0..7 {
        assert_eq!(table.flip_middle_cards(), Ok(()));
    }
    assert_eq!(sizes(&table), [0, 0, 7, 7, 19, 19, 0, 0]);
    let mut before = all_cards(&table)[0..14].to_vec();
    assert_eq!(table.flip_middle_cards(), Ok(()));
    assert_eq!(sizes(&table), [6, 6, 1, 1, 19, 19, 0, 0]);
    let mut after = all_cards(&table)[0..14].to_vec();
    let key = |c: &Card| (c.suit as u8, c.rank.value());
    before.sort_by_key(key);
    after.sort_by_key(key);
    assert_eq!(before, after);
    assert!(holds_deck(&table));
}

#[test]
fn flip_gives_the_right_side_the_extra_card() {
    let mut table = empty_table();
    let deck = Card::full_deck();
    table.middle_piles.1 = deck[0..3].to_vec();
    table.active_piles.0 = deck[3..7].to_vec();
    table.active_piles.1 = deck[7..9].to_vec();
    // Nine cards: four to the left, five to the right, then one turned on
    // each side.
    assert_eq!(table.flip_middle_cards(), Ok(()));
    assert_eq!(sizes(&table), [3, 4, 1, 1, 0, 0, 0, 0]);
    let mut cards = all_cards(&table);
    cards.sort_by_key(|c| c.rank.value());
    assert_eq!(cards, deck[0..9].to_vec());
}

#[test]
fn flip_with_two_cards_turns_both() {
    let mut table = empty_table();
    table.active_piles.0 = vec![card(Rank::Two, Suit::Clubs), card(Rank::Three, Suit::Clubs)];
    assert_eq!(table.flip_middle_cards(), Ok(()));
    assert_eq!(sizes(&table), [0, 0, 1, 1, 0, 0, 0, 0]);
}

#[test]
fn flip_without_cards_is_refused() {
    let mut table = empty_table();
    table.player_piles.0.push(card(Rank::Two, Suit::Clubs));
    assert_eq!(table.flip_middle_cards(), Err(SpeedError::NoCardToFlip));
    assert_eq!(sizes(&table), [0, 0, 0, 0, 1, 0, 0, 0]);
}

#[test]
fn flip_with_a_single_card_is_refused() {
    let mut table = empty_table();
    table.middle_piles.1.push(card(Rank::Two, Suit::Clubs));
    assert_eq!(table.flip_middle_cards(), Err(SpeedError::NoCardToFlip));
    assert_eq!(table.middle_piles.1, vec![card(Rank::Two, Suit::Clubs)]);
    assert_eq!(sizes(&table), [0, 1, 0, 0, 0, 0, 0, 0]);
}

#[test]
fn redeal_splits_into_halves() {
    let deck = Card::full_deck();
    let mut table = empty_table();
    table.active_piles.0.push(deck[40]);
    table.player_piles.0.push(deck[41]);
    table.redeal_middle(deck[0..7].to_vec());
    assert_eq!(table.middle_piles.0, deck[0..3].to_vec());
    assert_eq!(table.middle_piles.1, deck[3..7].to_vec());
    assert!(table.active_piles.0.is_empty());
    assert!(table.active_piles.1.is_empty());
    assert_eq!(table.player_piles.0, vec![deck[41]]);
    table.redeal_middle(deck[0..8].to_vec());
    assert_eq!(table.middle_piles.0, deck[0..4].to_vec());
    assert_eq!(table.middle_piles.1, deck[4..8].to_vec());
    table.redeal_middle(Vec::new());
    assert!(table.middle_piles.0.is_empty());
    assert!(table.middle_piles.1.is_empty());
}

#[test]
fn seeded_game_places_a_card() {
    let mut rng = ChaCha8Rng::seed_from_u64(0);
    let mut table = new_set_rng(&mut rng);
    let mut draws = 0;
    while let Ok(()) = table.player_draw_card(Player::PLAYER1) {
        draws += 1;
    }
    assert_eq!(draws, 4);
    draws = 0;
    while let Ok(()) = table.player_draw_card(Player::PLAYER2) {
        draws += 1;
    }
    assert_eq!(draws, 4);
    assert_eq!(table.flip_middle_cards(), Ok(()));
    assert_eq!(sizes(&table), [6, 6, 1, 1, 15, 15, 4, 4]);

    let held = table.player_hands[Player::PLAYER1][1].unwrap();
    assert_eq!(
        table.place_card(Player::PLAYER1, Side::RIGHT, 1),
        Err(SpeedError::NotAdjacentCard)
    );
    assert_eq!(table.player_hands[Player::PLAYER1][1], Some(held));
    assert_eq!(table.active_piles[Side::RIGHT].len(), 1);

    assert_eq!(table.place_card(Player::PLAYER1, Side::LEFT, 1), Ok(()));
    assert_eq!(table.player_hands[Player::PLAYER1][1], None);
    assert_eq!(table.active_piles[Side::LEFT].len(), 2);
    assert_eq!(table.active_piles[Side::LEFT].last(), Some(&held));
    assert!(holds_deck(&table));
}

#[test]
fn player_view_hides_what_is_face_down() {
    let mut table = empty_table();
    table.middle_piles.0.push(card(Rank::Two, Suit::Clubs));
    table.active_piles.1.push(card(Rank::Nine, Suit::Hearts));
    table.active_piles.1.push(card(Rank::Ten, Suit::Hearts));
    table.player_piles.0.push(card(Rank::Ace, Suit::Clubs));
    table.player_hands.0 = [None, Some(card(Rank::Six, Suit::Spades)), None, None];
    table.player_hands.1 = [
        Some(card(Rank::Queen, Suit::Spades)),
        None,
        None,
        Some(card(Rank::Jack, Suit::Spades)),
    ];

    let view = table.get_player_view(Player::PLAYER1);
    assert_eq!(
        view.player_hand,
        [None, Some(card(Rank::Six, Suit::Spades)), None, None]
    );
    assert_eq!(view.active_cards, [None, Some(card(Rank::Ten, Suit::Hearts))]);
    assert_eq!(view.opponent_hand, [true, false, false, true]);
    assert_eq!(view.opponent_pile, false);
    assert_eq!(view.middle_piles, [true, false]);

    let view = table.get_player_view(Player::PLAYER2);
    assert_eq!(
        view.player_hand,
        [
            Some(card(Rank::Queen, Suit::Spades)),
            None,
            None,
            Some(card(Rank::Jack, Suit::Spades))
        ]
    );
    assert_eq!(view.active_cards, [None, Some(card(Rank::Ten, Suit::Hearts))]);
    assert_eq!(view.opponent_hand, [false, true, false, false]);
    assert_eq!(view.opponent_pile, true);
    assert_eq!(view.middle_piles, [true, false]);
}

#[test]
fn piles_are_addressed_by_side_and_player() {
    let mut table = SpeedTable::deal(Card::full_deck());
    let deck = Card::full_deck();
    assert_eq!(table.middle_piles[Side::LEFT][0], deck[0]);
    assert_eq!(table.middle_piles[Side::RIGHT][0], deck[7]);
    assert_eq!(table.player_piles[Player::PLAYER1][0], deck[14]);
    assert_eq!(table.player_piles[Player::PLAYER2][0], deck[33]);
    table.player_hands[Player::PLAYER2][3] = Some(deck[0]);
    assert_eq!(table.player_hands.1, [None, None, None, Some(deck[0])]);
    assert_eq!(table.player_hands.0, [None; 4]);
    table.active_piles[Side::RIGHT].push(deck[1]);
    assert_eq!(table.active_piles.1, vec![deck[1]]);
    assert!(table.active_piles.0.is_empty());
    table.player_piles[Player::PLAYER1].clear();
    assert!(table.player_piles.0.is_empty());
    assert_eq!(table.player_piles.1.len(), 19);
}
