use vstd::prelude::*;
use crate::card::{find_card, has_id, index_of, lemma_index_of, lookup_card, position_of, Card};
use crate::game::{
    started, without_id, GameError, GamePhase, GameState, Message, PlayerInGame,
};

verus! {

/// Whether `PlayCard(card_id)` by `owner` is accepted, and with which card.
pub open spec fn play_card_outcome(g: GameState, owner: u64, card_id: u32, catalog: Seq<Card>) -> Result<Card, GameError> {
    if g.game_phase == GamePhase::Finished {
        Err(GameError::MatchFinished)
    } else if !g.is_participant(owner) {
        Err(GameError::NotFound)
    } else if !g.is_turn_of(owner) {
        Err(GameError::InvalidTurn)
    } else {
        match find_card(catalog, card_id) {
            None => Err(GameError::NotFound),
            Some(c) => if g.acting(owner).mana < c.cost {
                Err(GameError::InsufficientMana)
            } else if !has_id(g.acting(owner).hand@, card_id) {
                Err(GameError::NotFound)
            } else {
                Ok(c)
            },
        }
    }
}

/// `post` is `pre` after `owner` paid for `card`, took the first copy of its id out of
/// the hand and put it on the field.
pub open spec fn card_played(pre: GameState, post: GameState, owner: u64, card: Card) -> bool {
    let p = pre.acting(owner);
    let q = post.acting(owner);
    &&& pre.keeps_frame(post)
    &&& post.opposing(owner) == pre.opposing(owner)
    &&& post.winner == pre.winner
    &&& post.game_phase == started(pre.game_phase)
    &&& q.owner == p.owner
    &&& q.health == p.health
    &&& q.deck == p.deck
    &&& q.graveyard == p.graveyard
    &&& q.mana == p.mana - card.cost
    &&& q.field@ == p.field@.push(card)
    &&& q.hand@ == p.hand@.remove(index_of(p.hand@, card.id))
}

/// Whether `EndTurn` by `owner` is accepted.
pub open spec fn end_turn_outcome(g: GameState, owner: u64) -> Result<(), GameError> {
    if g.game_phase == GamePhase::Finished {
        Err(GameError::MatchFinished)
    } else if !g.is_participant(owner) {
        Err(GameError::NotFound)
    } else if !g.is_turn_of(owner) || g.current_turn == u64::MAX {
        Err(GameError::InvalidTurn)
    } else {
        Ok(())
    }
}

/// Whether `AttackPlayer(attacker_id)` by `owner` is accepted, and with which creature.
pub open spec fn attack_player_outcome(g: GameState, owner: u64, attacker_id: u32) -> Result<Card, GameError> {
    if g.game_phase == GamePhase::Finished {
        Err(GameError::MatchFinished)
    } else if !g.is_participant(owner) {
        Err(GameError::NotFound)
    } else {
        match find_card(g.acting(owner).field@, attacker_id) {
            None => Err(GameError::NotFound),
            Some(c) => Ok(c),
        }
    }
}

/// `post` is `pre` after the opposing side of `owner` took `damage`; the match finishes,
/// with `owner`'s side as winner, when that side's health drops to 0 or below.
pub open spec fn player_attacked(pre: GameState, post: GameState, owner: u64, damage: int) -> bool {
    let o = pre.opposing(owner);
    let n = post.opposing(owner);
    let health = o.health - damage;
    &&& pre.keeps_frame(post)
    &&& post.acting(owner) == pre.acting(owner)
    &&& n.owner == o.owner && n.mana == o.mana && n.hand == o.hand && n.deck == o.deck
    &&& n.field == o.field && n.graveyard == o.graveyard
    &&& n.health == health
    &&& if health <= 0 {
        &&& post.game_phase == GamePhase::Finished
        &&& post.winner == Some(
            if pre.player1.owner == owner {
                1u8
            } else {
                2u8
            },
        )
    } else {
        &&& post.game_phase == started(pre.game_phase)
        &&& post.winner == pre.winner
    }
}

/// Whether `AttackCreature(attacker_id, defender_id)` by `owner` is accepted, and with
/// which attacker and defender.
pub open spec fn attack_creature_outcome(g: GameState, owner: u64, attacker_id: u32, defender_id: u32) -> Result<(Card, Card), GameError> {
    if g.game_phase == GamePhase::Finished {
        Err(GameError::MatchFinished)
    } else if !g.is_participant(owner) {
        Err(GameError::NotFound)
    } else {
        match (
            find_card(g.acting(owner).field@, attacker_id),
            find_card(g.opposing(owner).field@, defender_id),
        ) {
            (Some(a), Some(d)) => Ok((a, d)),
            _ => Err(GameError::NotFound),
        }
    }
}

/// `post` is `pre` after combat between `atk` of `owner` and `def` of the other side:
/// the defender's id leaves its field when `atk.attack >= def.defense`, the attacker's id
/// leaves its field when `def.attack >= atk.defense`, both judged on the stats before combat.
pub open spec fn creatures_fought(pre: GameState, post: GameState, owner: u64, atk: Card, def: Card) -> bool {
    let p = pre.acting(owner);
    let q = post.acting(owner);
    let o = pre.opposing(owner);
    let n = post.opposing(owner);
    &&& pre.keeps_frame(post)
    &&& post.winner == pre.winner
    &&& post.game_phase == started(pre.game_phase)
    &&& q.same_but_field(p)
    &&& n.same_but_field(o)
    &&& q.field@ == if def.attack >= atk.defense {
        without_id(p.field@, atk.id)
    } else {
        p.field@
    }
    &&& n.field@ == if atk.attack >= def.defense {
        without_id(o.field@, def.id)
    } else {
        o.field@
    }
}

/// A new side: 20 health, 3 mana, the deck 1 to 10, nothing else.
pub open spec fn fresh_side(p: PlayerInGame, owner: u64) -> bool {
    &&& p.owner == owner
    &&& p.health == 20
    &&& p.mana == 3
    &&& p.hand@.len() == 0
    &&& p.field@.len() == 0
    &&& p.graveyard@.len() == 0
    &&& p.deck@ == Seq::new(10, |i: int| (i + 1) as u32)
}

/// The copy of `v` without any card that carries `id`.
pub fn remove_id(v: &Vec<Card>, id: u32) -> (r: Vec<Card>)
    ensures
        r@ == without_id(v@, id),
{
    let mut out: Vec<Card> = Vec::new();
    let mut i: usize = 0;
    while i < v.len()
        invariant
            0 <= i <= v@.len(),
            out@ == without_id(v@.subrange(0, i as int), id),
        decreases v@.len() - i,
    {
        assert(v@.subrange(0, i as int + 1).drop_last() =~= v@.subrange(0, i as int));
        if v[i].id != id {
            out.push(v[i].duplicate());
        }
        i = i + 1;
    }
    assert(v@.subrange(0, v@.len() as int) =~= v@);
    out
}

/// The deck every new side starts with: card ids 1 to 10.
pub fn starter_deck_ids() -> (r: Vec<u32>)
    ensures
        r@ == Seq::new(10, |i: int| (i + 1) as u32),
{
    let mut r: Vec<u32> = Vec::new();
    let mut k: u32 = 1;
    while k <= 10
        invariant
            1 <= k <= 11,
            r@ == Seq::new((k - 1) as nat, |i: int| (i + 1) as u32),
        decreases 11 - k,
    {
        r.push(k);
        k = k + 1;
        assert(r@ =~= Seq::new((k - 1) as nat, |i: int| (i + 1) as u32));
    }
    r
}

impl PlayerInGame {
    /// A side at the start of a match.
    pub fn new_side(owner: u64) -> (r: PlayerInGame)
        ensures
            fresh_side(r, owner),
    {
        PlayerInGame {
            owner,
            health: 20,
            mana: 3,
            hand: Vec::new(),
            deck: starter_deck_ids(),
            field: Vec::new(),
            graveyard: Vec::new(),
        }
    }

    /// Pays for `card`, takes the first copy of its id out of the hand and puts it on
    /// the field.
    pub fn deploy(&mut self, card: Card)
        requires
            old(self).mana >= card.cost,
            has_id(old(self).hand@, card.id),
        ensures
            final(self).owner == old(self).owner,
            final(self).health == old(self).health,
            final(self).deck == old(self).deck,
            final(self).graveyard == old(self).graveyard,
            final(self).mana == old(self).mana - card.cost,
            final(self).field@ == old(self).field@.push(card),
            final(self).hand@ == old(self).hand@.remove(index_of(old(self).hand@, card.id)),
    {
        proof {
            lemma_index_of(self.hand@, card.id);
        }
        self.mana = self.mana - card.cost;
        match position_of(&self.hand, card.id) {
            Some(i) => {
                self.hand.remove(i);
            },
            None => {},
        }
        self.field.push(card);
    }
}

impl GameState {
    /// A match between `player1` and `player2`, waiting on turn 1.
    pub fn new_match(match_id: u64, player1: u64, player2: u64, now: u64) -> (r: GameState)
        ensures
            r.wf(),
            r.match_id == match_id,
            fresh_side(r.player1, player1),
            fresh_side(r.player2, player2),
            r.current_turn == 1,
            r.turn_timer == now,
            r.game_phase == GamePhase::WaitingForPlayers,
            r.winner is None,
    {
        GameState {
            match_id,
            player1: PlayerInGame::new_side(player1),
            player2: PlayerInGame::new_side(player2),
            current_turn: 1,
            turn_timer: now,
            game_phase: GamePhase::WaitingForPlayers,
            winner: None,
        }
    }

    fn start(&mut self)
        ensures
            *final(self) == (GameState { game_phase: started(old(self).game_phase), ..*old(self) }),
    {
        if self.game_phase == GamePhase::WaitingForPlayers {
            self.game_phase = GamePhase::InProgress;
        }
    }

    /// `owner` plays the catalog card `card_id` on their turn.
    pub fn play_card(&mut self, owner: u64, card_id: u32, catalog: &Vec<Card>) -> (r: Result<Vec<Message>, GameError>)
        requires
            old(self).wf(),
        ensures
            final(self).wf(),
            match play_card_outcome(*old(self), owner, card_id, catalog@) {
                Ok(card) => {
                    &&& r is Ok
                    &&& r->Ok_0@ == seq![Message::CardPlayed { player: owner, card }]
                    &&& card_played(*old(self), *final(self), owner, card)
                },
                Err(e) => r == Err::<Vec<Message>, GameError>(e) && *final(self) == *old(self),
            },
    {
        if self.game_phase == GamePhase::Finished {
            return Err(GameError::MatchFinished);
        }
        if self.player1.owner != owner && self.player2.owner != owner {
            return Err(GameError::NotFound);
        }
        let is_first = self.player1.owner == owner;
        let my_turn = if is_first {
            self.current_turn % 2 == 1
        } else {
            self.current_turn % 2 == 0
        };
        if !my_turn {
            return Err(GameError::InvalidTurn);
        }
        let card = match lookup_card(catalog, card_id) {
            Some(c) => c,
            None => {
                return Err(GameError::NotFound);
            },
        };
        let mana = if is_first {
            self.player1.mana
        } else {
            self.player2.mana
        };
        if mana < card.cost {
            return Err(GameError::InsufficientMana);
        }
        let in_hand = if is_first {
            position_of(&self.player1.hand, card_id)
        } else {
            position_of(&self.player2.hand, card_id)
        };
        proof {
            lemma_index_of(self.acting(owner).hand@, card_id);
            lemma_index_of(catalog@, card_id);
        }
        if in_hand.is_none() {
            return Err(GameError::NotFound);
        }
        if is_first {
            self.player1.deploy(card.duplicate());
        } else {
            self.player2.deploy(card.duplicate());
        }
        self.start();
        Ok(vec![Message::CardPlayed { player: owner, card }])
    }

    /// `owner` ends their turn at time `now`; the turn passes to the other side.
    pub fn end_turn(&mut self, owner: u64, now: u64) -> (r: Result<Vec<Message>, GameError>)
        requires
            old(self).wf(),
        ensures
            final(self).wf(),
            match end_turn_outcome(*old(self), owner) {
                Ok(_) => {
                    &&& *final(self) == (GameState {
                        current_turn: (old(self).current_turn + 1) as u64,
                        turn_timer: now,
                        game_phase: started(old(self).game_phase),
                        ..*old(self)
                    })
                    &&& r is Ok
                    &&& r->Ok_0@ == seq![Message::TurnEnded { next_player: final(self).turn_owner() }]
                },
                Err(e) => r == Err::<Vec<Message>, GameError>(e) && *final(self) == *old(self),
            },
    {
        if self.game_phase == GamePhase::Finished {
            return Err(GameError::MatchFinished);
        }
        if self.player1.owner != owner && self.player2.owner != owner {
            return Err(GameError::NotFound);
        }
        let is_first = self.player1.owner == owner;
        let my_turn = if is_first {
            self.current_turn % 2 == 1
        } else {
            self.current_turn % 2 == 0
        };
        if !my_turn || self.current_turn == u64::MAX {
            return Err(GameError::InvalidTurn);
        }
        self.current_turn = self.current_turn + 1;
        self.turn_timer = now;
        self.start();
        let next_player = if self.current_turn % 2 == 1 {
            self.player1.owner
        } else {
            self.player2.owner
        };
        Ok(vec![Message::TurnEnded { next_player }])
    }

    /// A creature of `owner`'s field strikes the opposing side; when that side's health
    /// drops to 0 or below the match finishes and a `GameFinished` notification names `owner`.
    pub fn attack_player(&mut self, owner: u64, attacker_id: u32) -> (r: Result<Vec<Message>, GameError>)
        requires
            old(self).wf(),
        ensures
            final(self).wf(),
            match attack_player_outcome(*old(self), owner, attacker_id) {
                Ok(atk) => {
                    &&& player_attacked(*old(self), *final(self), owner, atk.attack as int)
                    &&& r is Ok
                    &&& r->Ok_0@ == if final(self).game_phase == GamePhase::Finished {
                        seq![Message::GameFinished { winner: Some(owner), rewards: 0 }]
                    } else {
                        Seq::<Message>::empty()
                    }
                },
                Err(e) => r == Err::<Vec<Message>, GameError>(e) && *final(self) == *old(self),
            },
    {
        if self.game_phase == GamePhase::Finished {
            return Err(GameError::MatchFinished);
        }
        if self.player1.owner != owner && self.player2.owner != owner {
            return Err(GameError::NotFound);
        }
        let is_first = self.player1.owner == owner;
        let found = if is_first {
            lookup_card(&self.player1.field, attacker_id)
        } else {
            lookup_card(&self.player2.field, attacker_id)
        };
        let damage: i64 = match found {
            Some(c) => c.attack as i64,
            None => {
                return Err(GameError::NotFound);
            },
        };
        let health: i64;
        if is_first {
            self.player2.health = self.player2.health - damage;
            health = self.player2.health;
        } else {
            self.player1.health = self.player1.health - damage;
            health = self.player1.health;
        }
        if health <= 0 {
            self.winner = Some(if is_first { 1u8 } else { 2u8 });
            self.game_phase = GamePhase::Finished;
            Ok(vec![Message::GameFinished { winner: Some(owner), rewards: 0 }])
        } else {
            self.start();
            Ok(Vec::new())
        }
    }

    /// A creature of `owner`'s field fights a creature of the opposing field.
    pub fn attack_creature(&mut self, owner: u64, attacker_id: u32, defender_id: u32) -> (r: Result<Vec<Message>, GameError>)
        requires
            old(self).wf(),
        ensures
            final(self).wf(),
            match attack_creature_outcome(*old(self), owner, attacker_id, defender_id) {
                Ok((atk, def)) => {
                    &&& creatures_fought(*old(self), *final(self), owner, atk, def)
                    &&& r is Ok
                    &&& r->Ok_0@.len() == 0
                },
                Err(e) => r == Err::<Vec<Message>, GameError>(e) && *final(self) == *old(self),
            },
    {
        if self.game_phase == GamePhase::Finished {
            return Err(GameError::MatchFinished);
        }
        if self.player1.owner != owner && self.player2.owner != owner {
            return Err(GameError::NotFound);
        }
        let is_first = self.player1.owner == owner;
        let (atk, def) = if is_first {
            (lookup_card(&self.player1.field, attacker_id), lookup_card(&self.player2.field, defender_id))
        } else {
            (lookup_card(&self.player2.field, attacker_id), lookup_card(&self.player1.field, defender_id))
        };
        let (atk, def) = match (atk, def) {
            (Some(a), Some(d)) => (a, d),
            _ => {
                return Err(GameError::NotFound);
            },
        };
        proof {
            lemma_index_of(self.acting(owner).field@, attacker_id);
            lemma_index_of(self.opposing(owner).field@, defender_id);
        }
        if is_first {
            if atk.attack >= def.defense {
                self.player2.field = remove_id(&self.player2.field, def.id);
            }
            if def.attack >= atk.defense {
                self.player1.field = remove_id(&self.player1.field, atk.id);
            }
        } else {
            if atk.attack >= def.defense {
                self.player1.field = remove_id(&self.player1.field, def.id);
            }
            if def.attack >= atk.defense {
                self.player2.field = remove_id(&self.player2.field, atk.id);
            }
        }
        self.start();
        Ok(Vec::new())
    }
}

/// `InstantCounter(card_id, target_card)`: a broadcast of the catalog card, with no
/// check on turn, mana or board; nothing when the id is not in the catalog.
pub fn instant_counter(owner: u64, card_id: u32, target_card: u32, catalog: &Vec<Card>) -> (r: Vec<Message>)
    ensures
        r@ == match find_card(catalog@, card_id) {
            Some(c) => seq![Message::CounterActivated { player: owner, counter_card: c, target_card }],
            None => Seq::<Message>::empty(),
        },
{
    match lookup_card(catalog, card_id) {
        Some(c) => vec![Message::CounterActivated { player: owner, counter_card: c, target_card }],
        None => Vec::new(),
    }
}

} // verus!
