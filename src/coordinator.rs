use vstd::prelude::*;
use crate::card::find_card;
use crate::engine::{
    attack_creature_outcome, attack_player_outcome, card_played, creatures_fought,
    end_turn_outcome, fresh_side, instant_counter, play_card_outcome, player_attacked,
};
use crate::game::{started, GameError, GamePhase, GameState, Message, Operation};
use crate::state::BlitzTacticsState;

verus! {

broadcast use vstd::std_specs::hash::group_hash_axioms;

/// `CreatePlayerProfile` by `owner`.
pub open spec fn step_create_player(pre: BlitzTacticsState, post: BlitzTacticsState, owner: u64, res: Result<Seq<Message>, GameError>) -> bool {
    if pre.players@.contains_key(owner) {
        res == Err::<Seq<Message>, GameError>(GameError::AlreadyExists) && post.same_as(pre)
    } else {
        let s = post.players@[owner];
        &&& res == Ok::<Seq<Message>, GameError>(Seq::empty())
        &&& post.players@ == pre.players@.insert(owner, s)
        &&& s.owner == owner && s.wins == 0 && s.losses == 0 && s.draws == 0
        &&& s.ranking == 1000 && s.total_matches == 0
        &&& s.cards_owned@ == Seq::new(10, |i: int| (i + 1) as u32)
        &&& post.active_matches@ == pre.active_matches@
        &&& post.player_matches@ == pre.player_matches@
        &&& post.card_database@ == pre.card_database@
        &&& post.total_games_played == pre.total_games_played
        &&& post.next_match_id == pre.next_match_id
    }
}

/// `CreateMatch(opponent)` by `owner` at time `now`.
pub open spec fn step_create_match(pre: BlitzTacticsState, post: BlitzTacticsState, owner: u64, opponent: u64, now: u64, res: Result<Seq<Message>, GameError>) -> bool {
    if pre.player_matches@.contains_key(owner) || pre.player_matches@.contains_key(opponent) {
        res == Err::<Seq<Message>, GameError>(GameError::PlayerAlreadyInMatch) && post.same_as(pre)
    } else if pre.next_match_id == u64::MAX {
        res == Err::<Seq<Message>, GameError>(GameError::CounterOverflow) && post.same_as(pre)
    } else {
        let id = pre.next_match_id;
        let g = post.active_matches@[id];
        &&& res == Ok::<Seq<Message>, GameError>(
            seq![Message::MatchCreated { match_id: id, player1: owner, player2: opponent }],
        )
        &&& post.active_matches@ == pre.active_matches@.insert(id, g)
        &&& g.match_id == id
        &&& fresh_side(g.player1, owner)
        &&& fresh_side(g.player2, opponent)
        &&& g.current_turn == 1
        &&& g.turn_timer == now
        &&& g.game_phase == GamePhase::WaitingForPlayers
        &&& g.winner is None
        &&& post.player_matches@ == pre.player_matches@.insert(owner, id).insert(opponent, id)
        &&& post.next_match_id == id + 1
        &&& post.players@ == pre.players@
        &&& post.card_database@ == pre.card_database@
        &&& post.total_games_played == pre.total_games_played
    }
}

/// `PlayCard(card_id)` by `owner`.
pub open spec fn step_play_card(pre: BlitzTacticsState, post: BlitzTacticsState, owner: u64, card_id: u32, msgs: Seq<Message>) -> bool {
    match pre.match_of(owner) {
        None => msgs.len() == 0 && post.same_as(pre),
        Some(g) => match play_card_outcome(g, owner, card_id, pre.card_database@) {
            Err(_) => msgs.len() == 0 && post.same_as(pre),
            Ok(card) => {
                &&& msgs == seq![Message::CardPlayed { player: owner, card }]
                &&& pre.match_updated(post, owner)
                &&& card_played(g, post.active_matches@[g.match_id], owner, card)
            },
        },
    }
}

/// `EndTurn` by `owner` at time `now`.
pub open spec fn step_end_turn(pre: BlitzTacticsState, post: BlitzTacticsState, owner: u64, now: u64, msgs: Seq<Message>) -> bool {
    match pre.match_of(owner) {
        None => msgs.len() == 0 && post.same_as(pre),
        Some(g) => match end_turn_outcome(g, owner) {
            Err(_) => msgs.len() == 0 && post.same_as(pre),
            Ok(_) => {
                let n = post.active_matches@[g.match_id];
                &&& pre.match_updated(post, owner)
                &&& n == (GameState {
                    current_turn: (g.current_turn + 1) as u64,
                    turn_timer: now,
                    game_phase: started(g.game_phase),
                    ..g
                })
                &&& msgs == seq![Message::TurnEnded { next_player: n.turn_owner() }]
            },
        },
    }
}

/// `AttackPlayer(attacker_id)` by `owner`; a blow that ends the match also finalizes it.
pub open spec fn step_attack_player(pre: BlitzTacticsState, post: BlitzTacticsState, owner: u64, attacker_id: u32, msgs: Seq<Message>) -> bool {
    match pre.match_of(owner) {
        None => msgs.len() == 0 && post.same_as(pre),
        Some(g) => match attack_player_outcome(g, owner, attacker_id) {
            Err(_) => msgs.len() == 0 && post.same_as(pre),
            Ok(atk) => if g.opposing(owner).health - atk.attack <= 0 {
                &&& msgs == seq![Message::GameFinished { winner: Some(owner), rewards: 0 }]
                &&& pre.finalized(post, g, owner, g.opposing(owner).owner)
            } else {
                &&& msgs.len() == 0
                &&& pre.match_updated(post, owner)
                &&& player_attacked(g, post.active_matches@[g.match_id], owner, atk.attack as int)
            },
        },
    }
}

/// `AttackCreature(attacker_id, defender_id)` by `owner`.
pub open spec fn step_attack_creature(pre: BlitzTacticsState, post: BlitzTacticsState, owner: u64, attacker_id: u32, defender_id: u32, msgs: Seq<Message>) -> bool {
    &&& msgs.len() == 0
    &&& match pre.match_of(owner) {
        None => post.same_as(pre),
        Some(g) => match attack_creature_outcome(g, owner, attacker_id, defender_id) {
            Err(_) => post.same_as(pre),
            Ok((atk, def)) => {
                &&& pre.match_updated(post, owner)
                &&& creatures_fought(g, post.active_matches@[g.match_id], owner, atk, def)
            },
        },
    }
}

/// `InstantCounter(card_id, target_card)` by `owner`: a broadcast only.
pub open spec fn step_instant_counter(pre: BlitzTacticsState, post: BlitzTacticsState, owner: u64, card_id: u32, target_card: u32, msgs: Seq<Message>) -> bool {
    &&& post.same_as(pre)
    &&& msgs == match find_card(pre.card_database@, card_id) {
        Some(c) => seq![Message::CounterActivated { player: owner, counter_card: c, target_card }],
        None => Seq::<Message>::empty(),
    }
}

/// What `operation` by `owner` at time `now` does to the store and answers.
pub open spec fn step(pre: BlitzTacticsState, post: BlitzTacticsState, owner: u64, operation: Operation, now: u64, res: Result<Seq<Message>, GameError>) -> bool {
    match operation {
        Operation::CreatePlayerProfile => step_create_player(pre, post, owner, res),
        Operation::CreateMatch { opponent } => step_create_match(pre, post, owner, opponent, now, res),
        Operation::PlayCard { card_id } => res is Ok && step_play_card(pre, post, owner, card_id, res->Ok_0),
        Operation::InstantCounter { card_id, target_card } => res is Ok && step_instant_counter(
            pre,
            post,
            owner,
            card_id,
            target_card,
            res->Ok_0,
        ),
        Operation::EndTurn => res is Ok && step_end_turn(pre, post, owner, now, res->Ok_0),
        Operation::AttackPlayer { attacker_id } => res is Ok && step_attack_player(pre, post, owner, attacker_id, res->Ok_0),
        Operation::AttackCreature { attacker_id, defender_id } => res is Ok && step_attack_creature(
            pre,
            post,
            owner,
            attacker_id,
            defender_id,
            res->Ok_0,
        ),
        Operation::RequestAIMove => res == Ok::<Seq<Message>, GameError>(Seq::empty()) && post.same_as(pre),
    }
}

/// The answer of an operation, as contracts see it.
pub open spec fn res_view(r: Result<Vec<Message>, GameError>) -> Result<Seq<Message>, GameError> {
    match r {
        Ok(m) => Ok(m@),
        Err(e) => Err(e),
    }
}

impl BlitzTacticsState {
    /// Takes the active match of `owner` out of the store, with its id.
    fn take_match(&mut self, owner: u64) -> (r: Option<(u64, GameState)>)
        requires
            old(self).wf(),
        ensures
            match r {
                None => old(self).match_of(owner) is None && *final(self) == *old(self),
                Some((id, g)) => {
                    &&& old(self).match_of(owner) == Some(g)
                    &&& old(self).player_matches@[owner] == id
                    &&& g.match_id == id
                    &&& final(self).active_matches@ == old(self).active_matches@.remove(id)
                    &&& final(self).players == old(self).players
                    &&& final(self).player_matches == old(self).player_matches
                    &&& final(self).card_database == old(self).card_database
                    &&& final(self).total_games_played == old(self).total_games_played
                    &&& final(self).next_match_id == old(self).next_match_id
                },
            },
    {
        let id = match self.player_matches.get(&owner) {
            Some(id) => *id,
            None => {
                return None;
            },
        };
        match self.active_matches.remove(&id) {
            Some(g) => Some((id, g)),
            None => None,
        }
    }

    /// `PlayCard(card_id)` by `owner` on their active match.
    pub fn play_card(&mut self, owner: u64, card_id: u32) -> (r: Vec<Message>)
        requires
            old(self).wf(),
        ensures
            final(self).wf(),
            step_play_card(*old(self), *final(self), owner, card_id, r@),
    {
        let (id, mut g) = match self.take_match(owner) {
            Some(t) => t,
            None => {
                return Vec::new();
            },
        };
        let r = g.play_card(owner, card_id, &self.card_database);
        self.active_matches.insert(id, g);
        proof {
            assert(self.active_matches@ == old(self).active_matches@.insert(id, self.active_matches@[id]));
            if r is Err {
                assert(self.active_matches@ =~= old(self).active_matches@);
            }
        }
        match r {
            Ok(m) => m,
            Err(_) => Vec::new(),
        }
    }

    /// `EndTurn` by `owner` on their active match, at time `now`.
    pub fn end_turn(&mut self, owner: u64, now: u64) -> (r: Vec<Message>)
        requires
            old(self).wf(),
        ensures
            final(self).wf(),
            step_end_turn(*old(self), *final(self), owner, now, r@),
    {
        let (id, mut g) = match self.take_match(owner) {
            Some(t) => t,
            None => {
                return Vec::new();
            },
        };
        let r = g.end_turn(owner, now);
        self.active_matches.insert(id, g);
        proof {
            assert(self.active_matches@ == old(self).active_matches@.insert(id, self.active_matches@[id]));
            if r is Err {
                assert(self.active_matches@ =~= old(self).active_matches@);
            }
        }
        match r {
            Ok(m) => m,
            Err(_) => Vec::new(),
        }
    }

    /// `AttackCreature(attacker_id, defender_id)` by `owner` on their active match.
    pub fn attack_creature(&mut self, owner: u64, attacker_id: u32, defender_id: u32) -> (r: Vec<Message>)
        requires
            old(self).wf(),
        ensures
            final(self).wf(),
            step_attack_creature(*old(self), *final(self), owner, attacker_id, defender_id, r@),
    {
        let (id, mut g) = match self.take_match(owner) {
            Some(t) => t,
            None => {
                return Vec::new();
            },
        };
        let r = g.attack_creature(owner, attacker_id, defender_id);
        self.active_matches.insert(id, g);
        proof {
            assert(self.active_matches@ == old(self).active_matches@.insert(id, self.active_matches@[id]));
            if r is Err {
                assert(self.active_matches@ =~= old(self).active_matches@);
            }
        }
        Vec::new()
    }

    /// `AttackPlayer(attacker_id)` by `owner` on their active match. The new match state is
    /// stored; when the blow ends the match, the winner's and loser's records are updated,
    /// one more game is counted and the match and both index entries leave the store.
    pub fn attack_player(&mut self, owner: u64, attacker_id: u32) -> (r: Vec<Message>)
        requires
            old(self).wf(),
        ensures
            final(self).wf(),
            step_attack_player(*old(self), *final(self), owner, attacker_id, r@),
    {
        let (id, mut g) = match self.take_match(owner) {
            Some(t) => t,
            None => {
                return Vec::new();
            },
        };
        let r = g.attack_player(owner, attacker_id);
        let finished = g.game_phase == GamePhase::Finished;
        let loser = if g.player1.owner == owner {
            g.player2.owner
        } else {
            g.player1.owner
        };
        self.active_matches.insert(id, g);
        proof {
            assert(self.active_matches@ == old(self).active_matches@.insert(id, self.active_matches@[id]));
            if r is Err {
                assert(self.active_matches@ =~= old(self).active_matches@);
            }
        }
        match r {
            Ok(m) => {
                if finished {
                    let _ = self.update_player_win(owner);
                    let _ = self.update_player_loss(loser);
                    if self.total_games_played < u64::MAX {
                        self.total_games_played = self.total_games_played + 1;
                    }
                    let _ = self.end_match(id);
                    proof {
                        assert(self.active_matches@ =~= old(self).active_matches@.remove(id));
                    }
                }
                m
            },
            Err(_) => Vec::new(),
        }
    }

    /// `CreateMatch(opponent)` by `owner` at time `now`: two fresh sides on turn 1.
    pub fn open_match(&mut self, owner: u64, opponent: u64, now: u64) -> (r: Result<Vec<Message>, GameError>)
        requires
            old(self).wf(),
        ensures
            final(self).wf(),
            step_create_match(*old(self), *final(self), owner, opponent, now, res_view(r)),
    {
        let game = GameState::new_match(0, owner, opponent, now);
        match self.create_match(owner, opponent, game) {
            Ok(match_id) => {
                let m = vec![Message::MatchCreated { match_id, player1: owner, player2: opponent }];
                assert(m@ =~= seq![Message::MatchCreated { match_id, player1: owner, player2: opponent }]);
                Ok(m)
            },
            Err(e) => Err(e),
        }
    }

    /// Runs `operation` for the authenticated `owner` at time `now`. Rejected match actions
    /// answer no notification and change nothing; store failures come back as errors.
    pub fn execute_operation(&mut self, owner: u64, operation: Operation, now: u64) -> (r: Result<Vec<Message>, GameError>)
        requires
            old(self).wf(),
        ensures
            final(self).wf(),
            step(*old(self), *final(self), owner, operation, now, res_view(r)),
    {
        match operation {
            Operation::CreatePlayerProfile => match self.create_player(owner) {
                Ok(()) => Ok(Vec::new()),
                Err(e) => Err(e),
            },
            Operation::CreateMatch { opponent } => self.open_match(owner, opponent, now),
            Operation::PlayCard { card_id } => Ok(self.play_card(owner, card_id)),
            Operation::InstantCounter { card_id, target_card } => Ok(
                instant_counter(owner, card_id, target_card, &self.card_database),
            ),
            Operation::EndTurn => Ok(self.end_turn(owner, now)),
            Operation::AttackPlayer { attacker_id } => Ok(self.attack_player(owner, attacker_id)),
            Operation::AttackCreature { attacker_id, defender_id } => Ok(
                self.attack_creature(owner, attacker_id, defender_id),
            ),
            Operation::RequestAIMove => Ok(Vec::new()),
        }
    }
}

} // verus!
