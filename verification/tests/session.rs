use speed::game_logic::piles::{PlayerHands, PlayerIndexedPile, SideIndexedPile};
use speed::game_logic::{Card, Player, Rank, Side, SpeedError, SpeedTable, Suit};
use speed::game_session::{action_for, apply_move, broadcast};
use speed::{GameSession, PlayerAction, ServerAction, SessionState};

fn card(rank: Rank, suit: Suit) -> Card {
    Card::new(rank, suit)
}

/// A table on which the second player wins by placing the one card in hand.
fn table_before_a_win() -> SpeedTable {
    SpeedTable {
        middle_piles: SideIndexedPile(
            vec![card(Rank::Two, Suit::Clubs)],
            vec![card(Rank::Three, Suit::Clubs)],
        ),
        active_piles: SideIndexedPile(vec![card(Rank::Five, Suit::Hearts)], Vec::new()),
        player_hands: PlayerHands(
            [None; 4],
            [None, None, Some(card(Rank::Four, Suit::Spades)), None],
        ),
        player_piles: PlayerIndexedPile(vec![card(Rank::Ace, Suit::Diamonds)], Vec::new()),
    }
}

#[test]
fn a_session_opens_with_the_board() {
    let table = SpeedTable::deal(Card::full_deck());
    let view1 = table.get_player_view(Player::PLAYER1);
    let view2 = table.get_player_view(Player::PLAYER2);
    let (session, sent) = GameSession::start(table);
    assert_eq!(session.state, SessionState::AwaitingMove);
    assert_eq!(sent.player1.action, ServerAction::SetBoard);
    assert_eq!(sent.player2.action, ServerAction::SetBoard);
    assert_eq!(sent.player1.player_view, view1);
    assert_eq!(sent.player2.player_view, view2);
    assert_eq!(sent.player1.player_view.middle_piles, [true, true]);
    assert_eq!(sent.player1.player_view.active_cards, [None, None]);
    assert_eq!(sent.player1.player_view.opponent_pile, true);
}

#[test]
fn a_move_is_answered_with_the_new_views() {
    let deck = Card::full_deck();
    let (mut session, _) = GameSession::start(SpeedTable::deal(deck.clone()));
    let sent = session.step(Player::PLAYER2, PlayerAction::DrawCard).unwrap();
    assert_eq!(session.state, SessionState::AwaitingMove);
    assert_eq!(sent.player1.action, ServerAction::NormalMove);
    assert_eq!(sent.player2.action, ServerAction::NormalMove);
    assert_eq!(
        sent.player2.player_view.player_hand,
        [Some(deck[51]), None, None, None]
    );
    assert_eq!(
        sent.player1.player_view.opponent_hand,
        [true, false, false, false]
    );
    assert_eq!(sent.player1.player_view.player_hand, [None; 4]);
    assert_eq!(sent.message_for(Player::PLAYER1), sent.player1);
    assert_eq!(sent.message_for(Player::PLAYER2), sent.player2);

    let sent = session.step(Player::PLAYER1, PlayerAction::Flip).unwrap();
    assert_eq!(sent.player1.action, ServerAction::NormalMove);
    assert_eq!(
        sent.player1.player_view.active_cards,
        [Some(deck[6]), Some(deck[13])]
    );
    assert_eq!(sent.player2.player_view.active_cards, sent.player1.player_view.active_cards);
}

#[test]
fn a_refused_move_is_answered_as_a_normal_move() {
    let (mut session, opened) = GameSession::start(SpeedTable::deal(Card::full_deck()));
    let sent = session
        .step(Player::PLAYER1, PlayerAction::PlaceCard(0, Side::LEFT))
        .unwrap();
    assert_eq!(session.state, SessionState::AwaitingMove);
    assert_eq!(sent.player1.action, ServerAction::NormalMove);
    assert_eq!(sent.player2.action, ServerAction::NormalMove);
    assert_eq!(sent.player1.player_view, opened.player1.player_view);
    assert_eq!(sent.player2.player_view, opened.player2.player_view);
}

#[test]
fn a_win_ends_the_session() {
    let (mut session, _) = GameSession::start(table_before_a_win());
    let sent = session
        .step(Player::PLAYER2, PlayerAction::PlaceCard(2, Side::LEFT))
        .unwrap();
    assert_eq!(session.state, SessionState::GameEnded(Player::PLAYER2));
    assert_eq!(sent.player1.action, ServerAction::GameLost);
    assert_eq!(sent.player2.action, ServerAction::GameWon);
    assert_eq!(
        sent.player1.player_view.active_cards,
        [Some(card(Rank::Four, Suit::Spades)), None]
    );
    assert_eq!(sent.player2.player_view.player_hand, [None; 4]);

    // Nothing is taken after the end.
    assert_eq!(session.step(Player::PLAYER1, PlayerAction::DrawCard), None);
    assert_eq!(session.step(Player::PLAYER2, PlayerAction::Flip), None);
    assert_eq!(session.state, SessionState::GameEnded(Player::PLAYER2));
    assert_eq!(session.table.player_piles.0.len(), 1);
    assert_eq!(session.table.middle_piles.0.len(), 1);
}

#[test]
fn moves_are_dispatched_to_the_table() {
    let mut table = table_before_a_win();
    assert_eq!(
        apply_move(&mut table, Player::PLAYER1, PlayerAction::DrawCard),
        Ok(())
    );
    assert_eq!(
        table.player_hands.0,
        [Some(card(Rank::Ace, Suit::Diamonds)), None, None, None]
    );
    assert_eq!(
        apply_move(&mut table, Player::PLAYER1, PlayerAction::DrawCard),
        Err(SpeedError::NoCardToDraw)
    );
    assert_eq!(
        apply_move(&mut table, Player::PLAYER2, PlayerAction::PlaceCard(2, Side::RIGHT)),
        Err(SpeedError::NoCardToPlaceOn)
    );
    assert_eq!(
        apply_move(&mut table, Player::PLAYER2, PlayerAction::Flip),
        Ok(())
    );
    assert_eq!(table.active_piles.1, vec![card(Rank::Three, Suit::Clubs)]);
    assert_eq!(
        apply_move(&mut table, Player::PLAYER2, PlayerAction::PlaceCard(2, Side::RIGHT)),
        Err(SpeedError::GameWon)
    );
}

#[test]
fn only_a_win_is_told_apart() {
    let won = Err(SpeedError::GameWon);
    assert_eq!(
        action_for(&won, Player::PLAYER1, Player::PLAYER1),
        ServerAction::GameWon
    );
    assert_eq!(
        action_for(&won, Player::PLAYER1, Player::PLAYER2),
        ServerAction::GameLost
    );
    assert_eq!(
        action_for(&won, Player::PLAYER2, Player::PLAYER1),
        ServerAction::GameLost
    );
    for outcome in [
        Ok(()),
        Err(SpeedError::NoCardToDraw),
        Err(SpeedError::HandAlreadyFull),
        Err(SpeedError::NoCardToPlace),
        Err(SpeedError::NoCardToPlaceOn),
        Err(SpeedError::NotAdjacentCard),
        Err(SpeedError::NoCardToFlip),
    ] {
        assert_eq!(
            action_for(&outcome, Player::PLAYER1, Player::PLAYER1),
            ServerAction::NormalMove
        );
        assert_eq!(
            action_for(&outcome, Player::PLAYER1, Player::PLAYER2),
            ServerAction::NormalMove
        );
    }
}

#[test]
fn a_broadcast_shows_each_player_the_own_view() {
    let table = table_before_a_win();
    let sent = broadcast(&table, ServerAction::GameLost, ServerAction::SetBoard);
    assert_eq!(sent.player1.action, ServerAction::GameLost);
    assert_eq!(sent.player2.action, ServerAction::SetBoard);
    assert_eq!(sent.player1.player_view, table.get_player_view(Player::PLAYER1));
    assert_eq!(sent.player2.player_view, table.get_player_view(Player::PLAYER2));
    assert_eq!(
        sent.player1.player_view.opponent_hand,
        [false, false, true, false]
    );
    assert_eq!(sent.player2.player_view.opponent_pile, true);
}
