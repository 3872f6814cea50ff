use blitz_tactics::{BlitzTacticsState, Card, CardType, GameError, GamePhase, Message, Operation};

const FIRST: u64 = 1001;
const SECOND: u64 = 2002;

fn brute(id: u32, attack: u32) -> Card {
    Card {
        id,
        name: String::from("brute"),
        description: String::new(),
        attack,
        defense: 1,
        cost: 0,
        card_type: CardType::Creature,
        ability: None,
    }
}

#[test]
fn create_player_once() {
    let mut s = BlitzTacticsState::new();
    assert!(s.create_player(FIRST).is_ok());
    assert_eq!(s.create_player(FIRST), Err(GameError::AlreadyExists));
    let st = s.get_player_stats(FIRST).unwrap();
    assert_eq!(st.ranking, 1000);
    assert_eq!(st.wins, 0);
    assert_eq!(st.cards_owned, (1..=10).collect::<Vec<u32>>());
    assert!(s.get_player_stats(SECOND).is_none());
}

#[test]
fn wins_losses_and_cards() {
    let mut s = BlitzTacticsState::new();
    s.create_player(FIRST).unwrap();
    s.update_player_win(FIRST).unwrap();
    s.update_player_loss(FIRST).unwrap();
    let st = s.get_player_stats(FIRST).unwrap();
    assert_eq!((st.wins, st.losses, st.total_matches, st.ranking), (1, 1, 2, 1010));
    s.players.get_mut(&FIRST).unwrap().ranking = 10;
    s.update_player_loss(FIRST).unwrap();
    assert_eq!(s.get_player_stats(FIRST).unwrap().ranking, 0);
    s.add_card_to_player(FIRST, 42).unwrap();
    s.add_card_to_player(FIRST, 42).unwrap();
    s.add_card_to_player(FIRST, 3).unwrap();
    assert_eq!(s.get_player_stats(FIRST).unwrap().cards_owned.len(), 11);
    assert!(s.update_player_win(SECOND).is_ok());
    assert!(s.get_player_stats(SECOND).is_none());
}

#[test]
fn match_store_ids_and_index() {
    let mut s = BlitzTacticsState::new();
    let r = s.execute_operation(FIRST, Operation::CreateMatch { opponent: SECOND }, 0).unwrap();
    assert!(matches!(r[0], Message::MatchCreated { match_id: 1, player1: FIRST, player2: SECOND }));
    assert_eq!(s.get_match_for_player(SECOND).unwrap().match_id, 1);
    assert_eq!(
        s.execute_operation(SECOND, Operation::CreateMatch { opponent: 5 }, 0).unwrap_err(),
        GameError::PlayerAlreadyInMatch
    );
    let r = s.execute_operation(7, Operation::CreateMatch { opponent: 8 }, 0).unwrap();
    assert!(matches!(r[0], Message::MatchCreated { match_id: 2, .. }));
    let mut g = s.get_match_by_id(2).unwrap().clone();
    g.player1.mana = 9;
    s.update_match(g.clone()).unwrap();
    assert_eq!(s.get_match_for_player(7).unwrap().player1.mana, 9);
    g.match_id = 50;
    assert_eq!(s.update_match(g), Err(GameError::NotFound));
    s.end_match(2).unwrap();
    assert!(s.get_match_for_player(7).is_none());
    assert!(s.get_match_for_player(8).is_none());
    assert!(s.get_match_by_id(2).is_none());
    assert!(s.end_match(2).is_ok());
}

#[test]
fn actions_without_match_are_silent() {
    let mut s = BlitzTacticsState::new();
    assert!(s.execute_operation(FIRST, Operation::EndTurn, 0).unwrap().is_empty());
    assert!(s.execute_operation(FIRST, Operation::PlayCard { card_id: 1 }, 0).unwrap().is_empty());
    assert!(s.execute_operation(FIRST, Operation::RequestAIMove, 0).unwrap().is_empty());
    let r = s.execute_operation(FIRST, Operation::InstantCounter { card_id: 4, target_card: 1 }, 0).unwrap();
    assert_eq!(r.len(), 1);
}

#[test]
fn full_match_scenario() {
    let mut s = BlitzTacticsState::new();
    s.execute_operation(FIRST, Operation::CreatePlayerProfile, 0).unwrap();
    s.execute_operation(SECOND, Operation::CreatePlayerProfile, 0).unwrap();
    s.execute_operation(FIRST, Operation::CreateMatch { opponent: SECOND }, 10).unwrap();
    assert_eq!(s.get_match_for_player(FIRST).unwrap().match_id, 1);
    assert_eq!(s.get_match_for_player(SECOND).unwrap().match_id, 1);

    assert!(s.execute_operation(FIRST, Operation::PlayCard { card_id: 1 }, 11).unwrap().is_empty());
    let g = s.get_match_for_player(FIRST).unwrap();
    assert_eq!(g.player1.mana, 3);
    assert!(g.player1.field.is_empty());

    let mut g = s.get_match_by_id(1).unwrap().clone();
    g.player1.hand.push(s.card_database[0].clone());
    s.update_match(g).unwrap();
    let r = s.execute_operation(FIRST, Operation::PlayCard { card_id: 1 }, 11).unwrap();
    assert_eq!(r.len(), 1);
    let g = s.get_match_for_player(FIRST).unwrap();
    assert_eq!(g.player1.mana, 2);
    assert_eq!(g.player1.field[0].id, 1);
    assert!(g.player1.hand.is_empty());

    let r = s.execute_operation(FIRST, Operation::EndTurn, 12).unwrap();
    assert!(matches!(r[0], Message::TurnEnded { next_player } if next_player == SECOND));
    assert_eq!(s.get_match_for_player(SECOND).unwrap().current_turn, 2);

    let mut g = s.get_match_by_id(1).unwrap().clone();
    g.player2.field.push(brute(77, 5));
    s.update_match(g).unwrap();

    assert!(s.execute_operation(SECOND, Operation::AttackPlayer { attacker_id: 77 }, 13).unwrap().is_empty());
    let g = s.get_match_for_player(FIRST).unwrap();
    assert_eq!(g.player1.health, 15);
    assert_eq!(g.game_phase, GamePhase::InProgress);

    s.execute_operation(SECOND, Operation::AttackPlayer { attacker_id: 77 }, 14).unwrap();
    s.execute_operation(SECOND, Operation::AttackPlayer { attacker_id: 77 }, 15).unwrap();
    let r = s.execute_operation(SECOND, Operation::AttackPlayer { attacker_id: 77 }, 16).unwrap();
    assert!(matches!(r[0], Message::GameFinished { winner: Some(w), rewards: 0 } if w == SECOND));

    let w = s.get_player_stats(SECOND).unwrap();
    assert_eq!((w.wins, w.ranking, w.total_matches), (1, 1025, 1));
    let l = s.get_player_stats(FIRST).unwrap();
    assert_eq!((l.losses, l.ranking, l.total_matches), (1, 985, 1));
    assert!(s.get_match_for_player(FIRST).is_none());
    assert!(s.get_match_for_player(SECOND).is_none());
    assert!(s.get_match_by_id(1).is_none());
    assert_eq!(s.total_games_played, 1);
}

#[test]
fn attack_creature_through_store() {
    let mut s = BlitzTacticsState::new();
    s.execute_operation(FIRST, Operation::CreateMatch { opponent: SECOND }, 0).unwrap();
    let mut g = s.get_match_by_id(1).unwrap().clone();
    g.player1.field.push(brute(5, 3));
    g.player2.field.push(brute(6, 3));
    s.update_match(g).unwrap();
    let r = s.execute_operation(FIRST, Operation::AttackCreature { attacker_id: 5, defender_id: 6 }, 0).unwrap();
    assert!(r.is_empty());
    let g = s.get_match_for_player(FIRST).unwrap();
    assert!(g.player1.field.is_empty());
    assert!(g.player2.field.is_empty());
}

#[test]
fn match_ids_exhausted() {
    let mut s = BlitzTacticsState::new();
    s.next_match_id = u64::MAX;
    assert_eq!(
        s.execute_operation(FIRST, Operation::CreateMatch { opponent: SECOND }, 0).unwrap_err(),
        GameError::CounterOverflow
    );
    assert!(s.get_match_for_player(FIRST).is_none());
    assert_eq!(s.next_match_id, u64::MAX);
}

#[test]
fn profile_twice_is_surfaced() {
    let mut s = BlitzTacticsState::new();
    assert!(s.execute_operation(FIRST, Operation::CreatePlayerProfile, 0).unwrap().is_empty());
    assert_eq!(
        s.execute_operation(FIRST, Operation::CreatePlayerProfile, 0).unwrap_err(),
        GameError::AlreadyExists
    );
}

#[test]
fn finished_match_is_stored_until_ended() {
    let mut s = BlitzTacticsState::new();
    s.execute_operation(FIRST, Operation::CreateMatch { opponent: SECOND }, 0).unwrap();
    let mut g = s.get_match_by_id(1).unwrap().clone();
    g.player1.health = 0;
    g.winner = Some(2);
    g.game_phase = GamePhase::Finished;
    g.player2.field.push(brute(9, 4));
    assert_eq!(s.update_match(g), Ok(()));
    assert_eq!(s.get_match_by_id(1).unwrap().game_phase, GamePhase::Finished);
    assert!(s.execute_operation(SECOND, Operation::AttackPlayer { attacker_id: 9 }, 1).unwrap().is_empty());
    assert_eq!(s.get_match_for_player(FIRST).unwrap().player1.health, 0);
    s.end_match(1).unwrap();
    assert!(s.get_match_by_id(1).is_none());
    assert!(s.get_match_for_player(FIRST).is_none());
    assert!(s.get_match_for_player(SECOND).is_none());
}
