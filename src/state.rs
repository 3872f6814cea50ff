use vstd::prelude::*;
use std::collections::HashMap;
use crate::card::{create_starter_deck, is_starter_catalog, Card};
use crate::game::{GameError, GameState};

verus! {

broadcast use vstd::std_specs::hash::group_hash_axioms;

/// The durable record of a player.
#[derive(Clone, Debug)]
pub struct PlayerStats {
    pub owner: u64,
    pub wins: u32,
    pub losses: u32,
    pub draws: u32,
    pub ranking: u32,
    pub total_matches: u32,
    pub cards_owned: Vec<u32>,
}

/// `a + b`, held at `u32::MAX`.
pub open spec fn sat_add(a: u32, b: u32) -> u32 {
    if a + b > u32::MAX {
        u32::MAX
    } else {
        (a + b) as u32
    }
}

/// A record after one more win: ranking up by 25.
pub open spec fn won(s: PlayerStats) -> PlayerStats {
    PlayerStats {
        wins: sat_add(s.wins, 1),
        total_matches: sat_add(s.total_matches, 1),
        ranking: sat_add(s.ranking, 25),
        ..s
    }
}

/// A record after one more loss: ranking down by 15, never below 0.
pub open spec fn lost(s: PlayerStats) -> PlayerStats {
    PlayerStats {
        losses: sat_add(s.losses, 1),
        total_matches: sat_add(s.total_matches, 1),
        ranking: if s.ranking >= 15 {
            (s.ranking - 15) as u32
        } else {
            0
        },
        ..s
    }
}

/// The records after a win of `o`; nothing changes where `o` has no record.
pub open spec fn apply_win(m: Map<u64, PlayerStats>, o: u64) -> Map<u64, PlayerStats> {
    if m.contains_key(o) {
        m.insert(o, won(m[o]))
    } else {
        m
    }
}

/// The records after a loss of `o`; nothing changes where `o` has no record.
pub open spec fn apply_loss(m: Map<u64, PlayerStats>, o: u64) -> Map<u64, PlayerStats> {
    if m.contains_key(o) {
        m.insert(o, lost(m[o]))
    } else {
        m
    }
}

/// The player records, the active matches by id, the index from player to match,
/// the catalog and the two counters.
pub struct BlitzTacticsState {
    pub players: HashMap<u64, PlayerStats>,
    pub active_matches: HashMap<u64, GameState>,
    pub player_matches: HashMap<u64, u64>,
    pub card_database: Vec<Card>,
    pub total_games_played: u64,
    pub next_match_id: u64,
}

impl BlitzTacticsState {
    /// Every stored match is well formed, carries its key, lies below the next id, and
    /// both its owners point to it; every index entry points to a stored match that its
    /// player takes part in.
    pub open spec fn wf(&self) -> bool {
        &&& self.next_match_id >= 1
        &&& forall|id: u64|
            #![trigger self.active_matches@[id]]
            self.active_matches@.contains_key(id) ==> {
                let g = self.active_matches@[id];
                &&& g.match_id == id
                &&& g.wf()
                &&& id < self.next_match_id
                &&& self.player_matches@.get(g.player1.owner) == Some(id)
                &&& self.player_matches@.get(g.player2.owner) == Some(id)
            }
        &&& forall|o: u64|
            #![trigger self.player_matches@[o]]
            self.player_matches@.contains_key(o) ==> {
                &&& self.active_matches@.contains_key(self.player_matches@[o])
                &&& self.active_matches@[self.player_matches@[o]].is_participant(o)
            }
    }

    /// The two stores agree on every view.
    pub open spec fn same_as(&self, o: BlitzTacticsState) -> bool {
        &&& self.players@ == o.players@
        &&& self.active_matches@ == o.active_matches@
        &&& self.player_matches@ == o.player_matches@
        &&& self.card_database@ == o.card_database@
        &&& self.total_games_played == o.total_games_played
        &&& self.next_match_id == o.next_match_id
    }

    /// The active match of `owner`, if any.
    pub open spec fn match_of(&self, owner: u64) -> Option<GameState> {
        if self.player_matches@.contains_key(owner) {
            Some(self.active_matches@[self.player_matches@[owner]])
        } else {
            None
        }
    }

    /// `post` differs from `self` at most in the match stored under `id`.
    pub open spec fn only_match_changed(&self, post: BlitzTacticsState, id: u64) -> bool {
        &&& post.active_matches@.contains_key(id)
        &&& post.active_matches@ == self.active_matches@.insert(id, post.active_matches@[id])
        &&& post.players@ == self.players@
        &&& post.player_matches@ == self.player_matches@
        &&& post.card_database@ == self.card_database@
        &&& post.total_games_played == self.total_games_played
        &&& post.next_match_id == self.next_match_id
    }

    /// `post` is `self` after the match `g` ended with `winner` beating `loser`: the
    /// records are updated, the match and both index entries are gone, one more game is counted.
    pub open spec fn finalized(&self, post: BlitzTacticsState, g: GameState, winner: u64, loser: u64) -> bool {
        &&& post.players@ == apply_loss(apply_win(self.players@, winner), loser)
        &&& post.active_matches@ == self.active_matches@.remove(g.match_id)
        &&& post.player_matches@ == self.player_matches@.remove(g.player1.owner).remove(
            g.player2.owner,
        )
        &&& post.card_database@ == self.card_database@
        &&& post.total_games_played == if self.total_games_played < u64::MAX {
            (self.total_games_played + 1) as u64
        } else {
            self.total_games_played
        }
        &&& post.next_match_id == self.next_match_id
    }

    /// The active match of `owner` is the one that changed.
    pub open spec fn match_updated(&self, post: BlitzTacticsState, owner: u64) -> bool {
        let id = self.player_matches@[owner];
        self.only_match_changed(post, id)
    }

    /// A store with the starter catalog, no player, no match, match ids from 1.
    pub fn new() -> (r: BlitzTacticsState)
        ensures
            r.wf(),
            r.players@ == Map::<u64, PlayerStats>::empty(),
            r.active_matches@ == Map::<u64, GameState>::empty(),
            r.player_matches@ == Map::<u64, u64>::empty(),
            is_starter_catalog(r.card_database@),
            r.total_games_played == 0,
            r.next_match_id == 1,
    {
        let mut s = BlitzTacticsState {
            players: HashMap::new(),
            active_matches: HashMap::new(),
            player_matches: HashMap::new(),
            card_database: Vec::new(),
            total_games_played: 0,
            next_match_id: 1,
        };
        let _ = s.initialize_card_database();
        s
    }

    /// Fills the catalog with the ten starter cards.
    pub fn initialize_card_database(&mut self) -> (r: Result<(), String>)
        ensures
            r is Ok,
            is_starter_catalog(final(self).card_database@),
            final(self).players == old(self).players,
            final(self).active_matches == old(self).active_matches,
            final(self).player_matches == old(self).player_matches,
            final(self).total_games_played == old(self).total_games_played,
            final(self).next_match_id == old(self).next_match_id,
    {
        self.card_database = create_starter_deck();
        Ok(())
    }

    /// The record of `owner`.
    pub fn get_player_stats(&self, owner: u64) -> (r: Option<&PlayerStats>)
        ensures
            match r {
                Some(s) => self.players@.contains_key(owner) && *s == self.players@[owner],
                None => !self.players@.contains_key(owner),
            },
    {
        self.players.get(&owner)
    }

    /// Creates the record of `owner`: no results yet, ranking 1000, cards 1 to 10.
    pub fn create_player(&mut self, owner: u64) -> (r: Result<(), GameError>)
        requires
            old(self).wf(),
        ensures
            final(self).wf(),
            old(self).players@.contains_key(owner) ==> r == Err::<(), GameError>(
                GameError::AlreadyExists,
            ) && final(self).same_as(*old(self)),
            !old(self).players@.contains_key(owner) ==> {
                let s = final(self).players@[owner];
                &&& r is Ok
                &&& final(self).players@ == old(self).players@.insert(owner, s)
                &&& s.owner == owner && s.wins == 0 && s.losses == 0 && s.draws == 0
                &&& s.ranking == 1000 && s.total_matches == 0
                &&& s.cards_owned@ == Seq::new(10, |i: int| (i + 1) as u32)
                &&& final(self).active_matches@ == old(self).active_matches@
                &&& final(self).player_matches@ == old(self).player_matches@
                &&& final(self).card_database@ == old(self).card_database@
                &&& final(self).total_games_played == old(self).total_games_played
                &&& final(self).next_match_id == old(self).next_match_id
            },
    {
        if self.players.contains_key(&owner) {
            return Err(GameError::AlreadyExists);
        }
        let stats = PlayerStats {
            owner,
            wins: 0,
            losses: 0,
            draws: 0,
            ranking: 1000,
            total_matches: 0,
            cards_owned: crate::engine::starter_deck_ids(),
        };
        self.players.insert(owner, stats);
        Ok(())
    }

    /// Stores `game_state` under a fresh id and points both players to it.
    pub fn create_match(&mut self, player1: u64, player2: u64, game_state: GameState) -> (r: Result<u64, GameError>)
        requires
            old(self).wf(),
            game_state.wf(),
            game_state.player1.owner == player1,
            game_state.player2.owner == player2,
        ensures
            final(self).wf(),
            (old(self).player_matches@.contains_key(player1) || old(self).player_matches@.contains_key(player2))
                ==> r == Err::<u64, GameError>(GameError::PlayerAlreadyInMatch) && final(self).same_as(*old(self)),
            !(old(self).player_matches@.contains_key(player1) || old(self).player_matches@.contains_key(player2))
                && old(self).next_match_id == u64::MAX
                ==> r == Err::<u64, GameError>(GameError::CounterOverflow) && final(self).same_as(*old(self)),
            !(old(self).player_matches@.contains_key(player1) || old(self).player_matches@.contains_key(player2))
                && old(self).next_match_id < u64::MAX ==> {
                let id = old(self).next_match_id;
                &&& r == Ok::<u64, GameError>(id)
                &&& final(self).next_match_id == id + 1
                &&& final(self).active_matches@ == old(self).active_matches@.insert(
                    id,
                    GameState { match_id: id, ..game_state },
                )
                &&& final(self).player_matches@ == old(self).player_matches@.insert(player1, id).insert(player2, id)
                &&& final(self).players@ == old(self).players@
                &&& final(self).card_database@ == old(self).card_database@
                &&& final(self).total_games_played == old(self).total_games_played
            },
    {
        if self.player_matches.contains_key(&player1) || self.player_matches.contains_key(&player2) {
            return Err(GameError::PlayerAlreadyInMatch);
        }
        if self.next_match_id == u64::MAX {
            return Err(GameError::CounterOverflow);
        }
        let match_id = self.next_match_id;
        self.next_match_id = match_id + 1;
        let mut game_state = game_state;
        game_state.match_id = match_id;
        self.active_matches.insert(match_id, game_state);
        self.player_matches.insert(player1, match_id);
        self.player_matches.insert(player2, match_id);
        Ok(match_id)
    }

    /// The active match of `owner`.
    pub fn get_match_for_player(&self, owner: u64) -> (r: Option<&GameState>)
        requires
            self.wf(),
        ensures
            match r {
                Some(g) => self.match_of(owner) == Some(*g),
                None => self.match_of(owner) is None,
            },
    {
        match self.player_matches.get(&owner) {
            Some(id) => self.active_matches.get(id),
            None => None,
        }
    }

    /// The active match stored under `match_id`.
    pub fn get_match_by_id(&self, match_id: u64) -> (r: Option<&GameState>)
        ensures
            match r {
                Some(g) => self.active_matches@.contains_key(match_id) && *g == self.active_matches@[match_id],
                None => !self.active_matches@.contains_key(match_id),
            },
    {
        self.active_matches.get(&match_id)
    }

    /// Overwrites the stored match that carries `game_state`'s id, finished or not.
    pub fn update_match(&mut self, game_state: GameState) -> (r: Result<(), GameError>)
        requires
            old(self).wf(),
            game_state.wf(),
            old(self).active_matches@.contains_key(game_state.match_id) ==> {
                let g = old(self).active_matches@[game_state.match_id];
                g.player1.owner == game_state.player1.owner && g.player2.owner == game_state.player2.owner
            },
        ensures
            final(self).wf(),
            !old(self).active_matches@.contains_key(game_state.match_id) ==> r == Err::<(), GameError>(
                GameError::NotFound,
            ) && final(self).same_as(*old(self)),
            old(self).active_matches@.contains_key(game_state.match_id) ==> r is Ok
                && final(self).active_matches@ == old(self).active_matches@.insert(game_state.match_id, game_state)
                && final(self).players@ == old(self).players@
                && final(self).player_matches@ == old(self).player_matches@
                && final(self).card_database@ == old(self).card_database@
                && final(self).total_games_played == old(self).total_games_played
                && final(self).next_match_id == old(self).next_match_id,
    {
        let match_id = game_state.match_id;
        if !self.active_matches.contains_key(&match_id) {
            return Err(GameError::NotFound);
        }
        self.active_matches.insert(match_id, game_state);
        Ok(())
    }

    /// Removes the match stored under `match_id` and both of its index entries.
    pub fn end_match(&mut self, match_id: u64) -> (r: Result<(), GameError>)
        requires
            old(self).wf(),
        ensures
            final(self).wf(),
            r is Ok,
            final(self).players@ == old(self).players@,
            final(self).card_database@ == old(self).card_database@,
            final(self).total_games_played == old(self).total_games_played,
            final(self).next_match_id == old(self).next_match_id,
            !old(self).active_matches@.contains_key(match_id) ==> final(self).same_as(*old(self)),
            old(self).active_matches@.contains_key(match_id) ==> {
                let g = old(self).active_matches@[match_id];
                &&& final(self).active_matches@ == old(self).active_matches@.remove(match_id)
                &&& final(self).player_matches@ == old(self).player_matches@.remove(g.player1.owner).remove(
                    g.player2.owner,
                )
            },
    {
        let owners = match self.active_matches.get(&match_id) {
            Some(g) => Some((g.player1.owner, g.player2.owner)),
            None => None,
        };
        if let Some((first, second)) = owners {
            self.player_matches.remove(&first);
            self.player_matches.remove(&second);
            self.active_matches.remove(&match_id);
        }
        Ok(())
    }

    /// One more win for `owner`, ranking up by 25; nothing where `owner` has no record.
    pub fn update_player_win(&mut self, owner: u64) -> (r: Result<(), GameError>)
        requires
            old(self).wf(),
        ensures
            final(self).wf(),
            r is Ok,
            final(self).players@ == apply_win(old(self).players@, owner),
            final(self).active_matches@ == old(self).active_matches@,
            final(self).player_matches@ == old(self).player_matches@,
            final(self).card_database@ == old(self).card_database@,
            final(self).total_games_played == old(self).total_games_played,
            final(self).next_match_id == old(self).next_match_id,
    {
        if let Some(mut stats) = self.players.remove(&owner) {
            stats.wins = stats.wins.saturating_add(1);
            stats.total_matches = stats.total_matches.saturating_add(1);
            stats.ranking = stats.ranking.saturating_add(25);
            self.players.insert(owner, stats);
            proof {
                assert(self.players@ =~= apply_win(old(self).players@, owner));
            }
        }
        Ok(())
    }

    /// One more loss for `owner`, ranking down by 15 but not below 0; nothing where
    /// `owner` has no record.
    pub fn update_player_loss(&mut self, owner: u64) -> (r: Result<(), GameError>)
        requires
            old(self).wf(),
        ensures
            final(self).wf(),
            r is Ok,
            final(self).players@ == apply_loss(old(self).players@, owner),
            final(self).active_matches@ == old(self).active_matches@,
            final(self).player_matches@ == old(self).player_matches@,
            final(self).card_database@ == old(self).card_database@,
            final(self).total_games_played == old(self).total_games_played,
            final(self).next_match_id == old(self).next_match_id,
    {
        if let Some(mut stats) = self.players.remove(&owner) {
            stats.losses = stats.losses.saturating_add(1);
            stats.total_matches = stats.total_matches.saturating_add(1);
            stats.ranking = stats.ranking.saturating_sub(15);
            self.players.insert(owner, stats);
            proof {
                assert(self.players@ =~= apply_loss(old(self).players@, owner));
            }
        }
        Ok(())
    }

    /// Adds `card_id` to the cards of `owner` where it is not there yet.
    pub fn add_card_to_player(&mut self, owner: u64, card_id: u32) -> (r: Result<(), GameError>)
        requires
            old(self).wf(),
        ensures
            final(self).wf(),
            r is Ok,
            final(self).active_matches@ == old(self).active_matches@,
            final(self).player_matches@ == old(self).player_matches@,
            final(self).card_database@ == old(self).card_database@,
            final(self).total_games_played == old(self).total_games_played,
            final(self).next_match_id == old(self).next_match_id,
            !old(self).players@.contains_key(owner) || old(self).players@[owner].cards_owned@.contains(card_id)
                ==> final(self).players@ == old(self).players@,
            old(self).players@.contains_key(owner) && !old(self).players@[owner].cards_owned@.contains(card_id)
                ==> {
                let o = old(self).players@[owner];
                let n = final(self).players@[owner];
                &&& final(self).players@ == old(self).players@.insert(owner, n)
                &&& n.cards_owned@ == o.cards_owned@.push(card_id)
                &&& (PlayerStats { cards_owned: o.cards_owned, ..n }) == o
            },
    {
        if let Some(mut stats) = self.players.remove(&owner) {
            if !contains_id(&stats.cards_owned, card_id) {
                stats.cards_owned.push(card_id);
            }
            self.players.insert(owner, stats);
            proof {
                if old(self).players@[owner].cards_owned@.contains(card_id) {
                    assert(self.players@ =~= old(self).players@);
                }
            }
        }
        Ok(())
    }
}

/// Whether `v` holds `x`.
pub fn contains_id(v: &Vec<u32>, x: u32) -> (r: bool)
    ensures
        r == v@.contains(x),
{
    let mut i: usize = 0;
    while i < v.len()
        invariant
            0 <= i <= v@.len(),
            forall|j: int| 0 <= j < i ==> v@[j] != x,
        decreases v@.len() - i,
    {
        if v[i] == x {
            return true;
        }
        i = i + 1;
    }
    false
}

} // verus!
