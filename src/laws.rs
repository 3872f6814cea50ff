use vstd::prelude::*;
use crate::card::{has_id, index_of, lemma_index_of, Card};
use crate::coordinator::{step, step_attack_player};
use crate::engine::{
    attack_creature_outcome, attack_player_outcome, card_played, creatures_fought,
    end_turn_outcome, play_card_outcome,
};
use crate::game::{count_id, without_id, GameError, GamePhase, GameState, Message, Operation};
use crate::state::{apply_loss, apply_win, BlitzTacticsState, PlayerStats};

verus! {

/// Sum of the costs of `cards`.
pub open spec fn total_cost(cards: Seq<Card>) -> int
    decreases cards.len(),
{
    if cards.len() == 0 {
        0
    } else {
        total_cost(cards.drop_last()) + cards.last().cost
    }
}

/// The turn counter of a match moves by exactly one on an accepted `EndTurn`, stays put on
/// a rejected one, and no other operation moves it.
pub proof fn lemma_turn_counter(
    pre: BlitzTacticsState,
    post: BlitzTacticsState,
    owner: u64,
    operation: Operation,
    now: u64,
    res: Result<Seq<Message>, GameError>,
    g: GameState,
)
    requires
        pre.wf(),
        step(pre, post, owner, operation, now, res),
        pre.match_of(owner) == Some(g),
    ensures
        operation == Operation::EndTurn && end_turn_outcome(g, owner) is Ok ==> post.active_matches@[g.match_id].current_turn == g.current_turn + 1,
        operation == Operation::EndTurn && end_turn_outcome(g, owner) is Err ==> post.same_as(pre),
        operation != Operation::EndTurn && post.active_matches@.contains_key(g.match_id)
            ==> post.active_matches@[g.match_id].current_turn == g.current_turn,
{
    let id = g.match_id;
    assert(pre.player_matches@[owner] == id);
    match operation {
        Operation::CreateMatch { opponent } => {
            if post.active_matches@.contains_key(id) && !post.same_as(pre) {
                assert(id < pre.next_match_id);
                assert(post.active_matches@[id] == pre.active_matches@[id]);
            }
        },
        Operation::CreatePlayerProfile => {},
        _ => {},
    }
}

/// Over a run of accepted `PlayCard`s by one side, the costs paid add up to the mana it
/// had at the start minus the mana it has at the end, so they never exceed the mana it had.
pub proof fn lemma_turn_spending(states: Seq<GameState>, cards: Seq<Card>, owner: u64)
    requires
        states.len() == cards.len() + 1,
        forall|i: int|
            0 <= i < cards.len() ==> card_played(#[trigger] states[i], states[i + 1], owner, cards[i]),
    ensures
        total_cost(cards) == states[0].acting(owner).mana - states.last().acting(owner).mana,
        total_cost(cards) <= states[0].acting(owner).mana,
    decreases cards.len(),
{
    if cards.len() > 0 {
        let n = cards.len() - 1;
        let s2 = states.drop_last();
        let c2 = cards.drop_last();
        assert forall|i: int| 0 <= i < c2.len() implies card_played(#[trigger] s2[i], s2[i + 1], owner, c2[i]) by {
            assert(card_played(states[i], states[i + 1], owner, cards[i]));
        }
        lemma_turn_spending(s2, c2, owner);
        assert(card_played(states[n], states[n + 1], owner, cards[n]));
    }
}

/// An accepted `PlayCard` puts exactly one more card of its id on the field and takes
/// exactly the first card of that id out of the hand, which held one.
pub proof fn lemma_card_moves(pre: GameState, post: GameState, owner: u64, card_id: u32, catalog: Seq<Card>, card: Card)
    requires
        play_card_outcome(pre, owner, card_id, catalog) == Ok::<Card, GameError>(card),
        card_played(pre, post, owner, card),
    ensures
        card.id == card_id,
        count_id(post.acting(owner).field@, card.id) == count_id(pre.acting(owner).field@, card.id) + 1,
        has_id(pre.acting(owner).hand@, card.id),
        ({
            let i = index_of(pre.acting(owner).hand@, card.id);
            &&& post.acting(owner).hand@.len() == pre.acting(owner).hand@.len() - 1
            &&& pre.acting(owner).hand@[i].id == card.id
            &&& forall|j: int| 0 <= j < i ==> pre.acting(owner).hand@[j].id != card.id
            &&& post.acting(owner).hand@ == pre.acting(owner).hand@.remove(i)
        }),
{
    let f = pre.acting(owner).field@;
    assert(f.push(card).drop_last() =~= f);
    lemma_index_of(catalog, card_id);
    lemma_index_of(pre.acting(owner).hand@, card.id);
}

/// No card of `without_id(s, id)` carries `id`.
pub proof fn lemma_without_id(s: Seq<Card>, id: u32)
    ensures
        !has_id(without_id(s, id), id),
    decreases s.len(),
{
    if s.len() > 0 {
        lemma_without_id(s.drop_last(), id);
        let w = without_id(s.drop_last(), id);
        if s.last().id != id {
            assert forall|i: int| 0 <= i < w.push(s.last()).len() implies w.push(s.last())[i].id != id by {
                if i < w.len() {
                    assert(w.push(s.last())[i] == w[i]);
                }
            }
        }
    }
}

/// When each of two fighting creatures is strong enough to destroy the other, both leave
/// their fields.
pub proof fn lemma_mutual_destruction(pre: GameState, post: GameState, owner: u64, atk: Card, def: Card)
    requires
        creatures_fought(pre, post, owner, atk, def),
        atk.attack >= def.defense,
        def.attack >= atk.defense,
    ensures
        !has_id(post.acting(owner).field@, atk.id),
        !has_id(post.opposing(owner).field@, def.id),
{
    lemma_without_id(pre.acting(owner).field@, atk.id);
    lemma_without_id(pre.opposing(owner).field@, def.id);
}

/// A well-formed match is finished exactly when a side is out of health, and no action
/// is accepted on a finished match.
pub proof fn lemma_finished_is_terminal(g: GameState, owner: u64, card_id: u32, catalog: Seq<Card>, attacker_id: u32, defender_id: u32)
    requires
        g.wf(),
    ensures
        (g.game_phase == GamePhase::Finished) <==> (g.player1.health <= 0 || g.player2.health <= 0),
        g.game_phase == GamePhase::Finished ==> {
            &&& play_card_outcome(g, owner, card_id, catalog) == Err::<Card, GameError>(GameError::MatchFinished)
            &&& end_turn_outcome(g, owner) == Err::<(), GameError>(GameError::MatchFinished)
            &&& attack_player_outcome(g, owner, attacker_id) == Err::<Card, GameError>(GameError::MatchFinished)
            &&& attack_creature_outcome(g, owner, attacker_id, defender_id) == Err::<(Card, Card), GameError>(GameError::MatchFinished)
        },
{
}

/// A blow that ends a match gives the attacking player one more win and 25 ranking points,
/// the other one more loss and 15 points fewer (not below 0), and takes both out of the
/// active-match index.
pub proof fn lemma_completion(pre: BlitzTacticsState, post: BlitzTacticsState, owner: u64, attacker_id: u32, msgs: Seq<Message>, g: GameState, atk: Card)
    requires
        pre.wf(),
        step_attack_player(pre, post, owner, attacker_id, msgs),
        pre.match_of(owner) == Some(g),
        attack_player_outcome(g, owner, attacker_id) == Ok::<Card, GameError>(atk),
        g.opposing(owner).health - atk.attack <= 0,
        g.opposing(owner).owner != owner,
        pre.players@.contains_key(owner),
        pre.players@.contains_key(g.opposing(owner).owner),
        pre.players@[owner].wins < u32::MAX,
        pre.players@[owner].ranking <= u32::MAX - 25,
        pre.players@[g.opposing(owner).owner].losses < u32::MAX,
    ensures
        ({
            let w = pre.players@[owner];
            let l = pre.players@[g.opposing(owner).owner];
            let w2 = post.players@[owner];
            let l2 = post.players@[g.opposing(owner).owner];
            &&& w2.wins == w.wins + 1 && w2.losses == w.losses && w2.ranking == w.ranking + 25
            &&& l2.losses == l.losses + 1 && l2.wins == l.wins
            &&& l2.ranking == if l.ranking >= 15 { l.ranking - 15 } else { 0 }
        }),
        !post.player_matches@.contains_key(owner),
        !post.player_matches@.contains_key(g.opposing(owner).owner),
        !post.active_matches@.contains_key(g.match_id),
{
}

/// A win adds one win, one match and 25 ranking points to a record and changes nothing
/// else; a loss adds one loss and one match and takes 15 points off, never below 0. The
/// other records are untouched.
pub proof fn lemma_record_updates(m: Map<u64, PlayerStats>, owner: u64, other: u64)
    requires
        m.contains_key(owner),
        m[owner].wins < u32::MAX,
        m[owner].losses < u32::MAX,
        m[owner].total_matches < u32::MAX,
        m[owner].ranking <= u32::MAX - 25,
        other != owner,
    ensures
        ({
            let s = m[owner];
            let w = apply_win(m, owner)[owner];
            let l = apply_loss(m, owner)[owner];
            &&& w == (PlayerStats { wins: (s.wins + 1) as u32, total_matches: (s.total_matches + 1) as u32, ranking: (s.ranking + 25) as u32, ..s })
            &&& l == (PlayerStats {
                losses: (s.losses + 1) as u32,
                total_matches: (s.total_matches + 1) as u32,
                ranking: if s.ranking >= 15 { (s.ranking - 15) as u32 } else { 0 },
                ..s
            })
        }),
        apply_win(m, owner).dom() == m.dom(),
        apply_loss(m, owner).dom() == m.dom(),
        m.contains_key(other) ==> apply_win(m, owner)[other] == m[other] && apply_loss(m, owner)[other] == m[other],
{
    assert(apply_win(m, owner).dom() =~= m.dom());
    assert(apply_loss(m, owner).dom() =~= m.dom());
}

} // verus!
