use blitz_tactics::card::{lookup_card, position_of};
use blitz_tactics::engine::{instant_counter, remove_id, starter_deck_ids};
use blitz_tactics::{create_starter_deck, Card, CardType, GameError, GamePhase, GameState, Message};

const A: u64 = 11;
const B: u64 = 22;

fn creature(id: u32, attack: u32, defense: u32) -> Card {
    Card {
        id,
        name: format!("c{}", id),
        description: String::new(),
        attack,
        defense,
        cost: 1,
        card_type: CardType::Creature,
        ability: None,
    }
}

#[test]
fn starter_deck_has_ten_cards_in_order() {
    let deck = create_starter_deck();
    assert_eq!(deck.len(), 10);
    for (i, c) in deck.iter().enumerate() {
        assert_eq!(c.id as usize, i + 1);
    }
    assert_eq!(deck[0].name, "Lightning Bolt");
    assert_eq!(deck[0].cost, 1);
    assert_eq!(deck[0].card_type, CardType::Spell);
    assert_eq!(deck[5].attack, 5);
    assert_eq!(deck[5].defense, 5);
    assert_eq!(deck[5].cost, 5);
    assert_eq!(deck[9].name, "Berserker");
    assert_eq!(deck[9].attack, 6);
    assert_eq!(deck[2].ability.as_deref(), Some("First Strike"));
    assert_eq!(deck[3].ability.as_deref(), Some("Instant"));
    assert_eq!(deck[7].ability.as_deref(), Some("Flying"));
    assert!(deck[4].ability.is_none());
    let names: Vec<&str> = deck.iter().map(|c| c.name.as_str()).collect();
    assert_eq!(
        names,
        vec![
            "Lightning Bolt", "Shield Wall", "Swift Strike", "Nullify", "Power Surge",
            "Fire Elemental", "Mana Crystal", "Dragon Whelp", "Heal", "Berserker"
        ]
    );
    assert_eq!(deck[4].description, "+3/+3 to target creature");
    assert_eq!(deck[9].description, "High attack creature 6/3");
}

#[test]
fn lookup_finds_first_and_misses_unknown() {
    let deck = create_starter_deck();
    assert_eq!(lookup_card(&deck, 8).unwrap().name, "Dragon Whelp");
    assert!(lookup_card(&deck, 11).is_none());
    assert!(lookup_card(&deck, 0).is_none());
    let v = vec![creature(4, 1, 1), creature(5, 2, 2), creature(5, 3, 3)];
    assert_eq!(position_of(&v, 5), Some(1));
    assert_eq!(position_of(&v, 6), None);
}

#[test]
fn new_match_is_waiting_on_turn_one() {
    let g = GameState::new_match(7, A, B, 100);
    assert_eq!(g.match_id, 7);
    assert_eq!(g.current_turn, 1);
    assert_eq!(g.turn_timer, 100);
    assert_eq!(g.game_phase, GamePhase::WaitingForPlayers);
    assert_eq!(g.player1.health, 20);
    assert_eq!(g.player2.mana, 3);
    assert!(g.player1.hand.is_empty());
    assert_eq!(g.player2.deck, (1..=10).collect::<Vec<u32>>());
    assert_eq!(starter_deck_ids(), (1..=10).collect::<Vec<u32>>());
    assert!(g.winner.is_none());
}

#[test]
fn play_card_pays_and_deploys() {
    let deck = create_starter_deck();
    let mut g = GameState::new_match(1, A, B, 0);
    g.player1.hand = vec![deck[0].clone()];
    let r = g.play_card(A, 1, &deck).unwrap();
    assert_eq!(r.len(), 1);
    assert!(matches!(&r[0], Message::CardPlayed { player, card } if *player == A && card.id == 1));
    assert_eq!(g.player1.mana, 2);
    assert_eq!(g.player1.field.len(), 1);
    assert_eq!(g.player1.field[0].id, 1);
    assert!(g.player1.hand.is_empty());
    assert_eq!(g.game_phase, GamePhase::InProgress);
    assert_eq!(g.player2.field.len(), 0);
}

#[test]
fn play_card_takes_only_first_copy_from_hand() {
    let deck = create_starter_deck();
    let mut g = GameState::new_match(1, A, B, 0);
    g.player1.hand = vec![deck[1].clone(), deck[0].clone(), deck[0].clone()];
    g.play_card(A, 1, &deck).unwrap();
    let ids: Vec<u32> = g.player1.hand.iter().map(|c| c.id).collect();
    assert_eq!(ids, vec![2, 1]);
    assert_eq!(g.player1.field.iter().filter(|c| c.id == 1).count(), 1);
}

#[test]
fn play_card_rejections_leave_match_unchanged() {
    let deck = create_starter_deck();
    let mut g = GameState::new_match(1, A, B, 0);
    assert_eq!(g.play_card(B, 1, &deck).unwrap_err(), GameError::InvalidTurn);
    assert_eq!(g.play_card(A, 42, &deck).unwrap_err(), GameError::NotFound);
    assert_eq!(g.play_card(A, 6, &deck).unwrap_err(), GameError::InsufficientMana);
    assert_eq!(g.play_card(99, 1, &deck).unwrap_err(), GameError::NotFound);
    assert_eq!(g.play_card(A, 1, &deck).unwrap_err(), GameError::NotFound);
    g.player1.hand = vec![deck[1].clone()];
    assert_eq!(g.play_card(A, 1, &deck).unwrap_err(), GameError::NotFound);
    assert_eq!(g.player1.hand.len(), 1);
    assert_eq!(g.player1.mana, 3);
    assert!(g.player1.field.is_empty());
    assert_eq!(g.game_phase, GamePhase::WaitingForPlayers);
}

#[test]
fn mana_spent_in_a_turn_never_exceeds_mana() {
    let deck = create_starter_deck();
    let mut g = GameState::new_match(1, A, B, 0);
    g.player1.hand = vec![deck[1].clone(), deck[0].clone(), deck[6].clone()];
    g.play_card(A, 2, &deck).unwrap();
    assert_eq!(g.player1.mana, 0);
    assert_eq!(g.play_card(A, 1, &deck).unwrap_err(), GameError::InsufficientMana);
    g.play_card(A, 7, &deck).unwrap();
    assert_eq!(g.player1.mana, 0);
    assert_eq!(g.player1.hand.len(), 1);
    assert_eq!(g.player1.hand[0].id, 1);
}

#[test]
fn end_turn_advances_by_one() {
    let mut g = GameState::new_match(1, A, B, 0);
    assert_eq!(g.end_turn(B, 5).unwrap_err(), GameError::InvalidTurn);
    assert_eq!(g.current_turn, 1);
    let r = g.end_turn(A, 5).unwrap();
    assert_eq!(g.current_turn, 2);
    assert_eq!(g.turn_timer, 5);
    assert!(matches!(r[0], Message::TurnEnded { next_player } if next_player == B));
    let r = g.end_turn(B, 9).unwrap();
    assert_eq!(g.current_turn, 3);
    assert!(matches!(r[0], Message::TurnEnded { next_player } if next_player == A));
}

#[test]
fn attack_player_deals_damage_and_finishes() {
    let mut g = GameState::new_match(1, A, B, 0);
    g.player2.field = vec![creature(6, 5, 5)];
    assert!(g.attack_player(B, 6).unwrap().is_empty());
    assert_eq!(g.player1.health, 15);
    assert_eq!(g.game_phase, GamePhase::InProgress);
    assert_eq!(g.attack_player(B, 3).unwrap_err(), GameError::NotFound);
    g.attack_player(B, 6).unwrap();
    g.attack_player(B, 6).unwrap();
    let r = g.attack_player(B, 6).unwrap();
    assert_eq!(g.player1.health, 0);
    assert_eq!(g.game_phase, GamePhase::Finished);
    assert_eq!(g.winner, Some(2));
    assert!(matches!(r[0], Message::GameFinished { winner: Some(w), rewards: 0 } if w == B));
    assert_eq!(g.attack_player(B, 6).unwrap_err(), GameError::MatchFinished);
    assert_eq!(g.end_turn(A, 1).unwrap_err(), GameError::MatchFinished);
    assert_eq!(g.player1.health, 0);
}

#[test]
fn attack_creature_mutual_destruction() {
    let mut g = GameState::new_match(1, A, B, 0);
    g.player1.field = vec![creature(3, 4, 2), creature(8, 3, 3)];
    g.player2.field = vec![creature(10, 6, 3)];
    assert!(g.attack_creature(A, 3, 10).unwrap().is_empty());
    let mine: Vec<u32> = g.player1.field.iter().map(|c| c.id).collect();
    assert_eq!(mine, vec![8]);
    assert!(g.player2.field.is_empty());
}

#[test]
fn attack_creature_one_sided_and_missing() {
    let mut g = GameState::new_match(1, A, B, 0);
    g.player1.field = vec![creature(2, 2, 5)];
    g.player2.field = vec![creature(3, 4, 2)];
    g.attack_creature(A, 2, 3).unwrap();
    assert_eq!(g.player1.field.len(), 1);
    assert!(g.player2.field.is_empty());
    assert_eq!(g.attack_creature(A, 2, 3).unwrap_err(), GameError::NotFound);
}

#[test]
fn remove_id_drops_every_copy() {
    let v = vec![creature(1, 0, 0), creature(2, 0, 0), creature(1, 0, 0)];
    let r = remove_id(&v, 1);
    assert_eq!(r.len(), 1);
    assert_eq!(r[0].id, 2);
}

#[test]
fn instant_counter_broadcasts_catalog_card() {
    let deck = create_starter_deck();
    let r = instant_counter(A, 4, 9, &deck);
    assert!(matches!(&r[0], Message::CounterActivated { player, counter_card, target_card }
        if *player == A && counter_card.name == "Nullify" && *target_card == 9));
    assert!(instant_counter(A, 77, 9, &deck).is_empty());
}
