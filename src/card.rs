use vstd::prelude::*;

verus! {

broadcast use vstd::string::group_string_axioms;

/// The role a card plays once it leaves a hand.
#[derive(Clone, Copy, Debug, PartialEq, Eq, Structural)]
pub enum CardType {
    Creature,
    Spell,
    Counter,
    Buff,
}

/// A card definition of the catalog.
#[derive(Clone, Debug)]
pub struct Card {
    pub id: u32,
    pub name: String,
    pub description: String,
    pub attack: u32,
    pub defense: u32,
    pub cost: u32,
    pub card_type: CardType,
    pub ability: Option<String>,
}

impl Card {
    /// A field-by-field copy of the card.
    pub fn duplicate(&self) -> (r: Card)
        ensures
            r == *self,
    {
        let ability = match &self.ability {
            Some(a) => Some(a.clone()),
            None => None,
        };
        Card {
            id: self.id,
            name: self.name.clone(),
            description: self.description.clone(),
            attack: self.attack,
            defense: self.defense,
            cost: self.cost,
            card_type: self.card_type,
            ability,
        }
    }
}

/// Index of the first card carrying `id` in `s`, or `s.len()` when there is none.
pub open spec fn index_of(s: Seq<Card>, id: u32) -> int
    decreases s.len(),
{
    if s.len() == 0 {
        0
    } else if s[0].id == id {
        0
    } else {
        1 + index_of(s.drop_first(), id)
    }
}

/// The first card carrying `id` in `s`.
pub open spec fn find_card(s: Seq<Card>, id: u32) -> Option<Card> {
    if index_of(s, id) < s.len() {
        Some(s[index_of(s, id)])
    } else {
        None
    }
}

/// Whether some card of `s` carries `id`.
pub open spec fn has_id(s: Seq<Card>, id: u32) -> bool {
    exists|i: int| 0 <= i < s.len() && s[i].id == id
}

/// `index_of` names the first position that carries `id`.
pub proof fn lemma_index_of(s: Seq<Card>, id: u32)
    ensures
        0 <= index_of(s, id) <= s.len(),
        index_of(s, id) < s.len() ==> s[index_of(s, id)].id == id,
        forall|j: int| 0 <= j < index_of(s, id) ==> s[j].id != id,
        index_of(s, id) < s.len() <==> has_id(s, id),
    decreases s.len(),
{
    if s.len() > 0 && s[0].id != id {
        lemma_index_of(s.drop_first(), id);
        assert forall|j: int| 0 <= j < index_of(s, id) implies s[j].id != id by {
            if j > 0 {
                assert(s[j] == s.drop_first()[j - 1]);
            }
        }
        if has_id(s, id) {
            let i = choose|i: int| 0 <= i < s.len() && s[i].id == id;
            assert(s.drop_first()[i - 1].id == id);
        }
    }
}

/// Position of the first card of `v` that carries `id`.
pub fn position_of(v: &Vec<Card>, id: u32) -> (r: Option<usize>)
    ensures
        match r {
            Some(i) => i == index_of(v@, id) && i < v@.len(),
            None => index_of(v@, id) == v@.len(),
        },
{
    let mut i: usize = 0;
    assert(v@.subrange(0, v@.len() as int) =~= v@);
    while i < v.len()
        invariant
            0 <= i <= v@.len(),
            index_of(v@, id) == i + index_of(v@.subrange(i as int, v@.len() as int), id),
        decreases v@.len() - i,
    {
        if v[i].id == id {
            assert(v@.subrange(i as int, v@.len() as int)[0] == v@[i as int]);
            return Some(i);
        }
        assert(v@.subrange(i as int, v@.len() as int).drop_first() =~= v@.subrange(
            i as int + 1,
            v@.len() as int,
        ));
        i = i + 1;
    }
    assert(v@.subrange(i as int, v@.len() as int).len() == 0);
    proof {
        lemma_index_of(v@, id);
    }
    None
}

/// Looks a card up by id, copying the first match.
pub fn lookup_card(v: &Vec<Card>, id: u32) -> (r: Option<Card>)
    ensures
        r == find_card(v@, id),
{
    proof {
        lemma_index_of(v@, id);
    }
    match position_of(v, id) {
        Some(i) => {
            Some(v[i].duplicate())
        },
        None => None,
    }
}

/// Attack, defense, cost and type of the starter card with the given id (ids 1 to 10).
pub open spec fn starter_stats(id: int) -> (u32, u32, u32, CardType) {
    if id == 1 {
        (3, 0, 1, CardType::Spell)
    } else if id == 2 {
        (2, 5, 3, CardType::Creature)
    } else if id == 3 {
        (4, 2, 3, CardType::Creature)
    } else if id == 4 {
        (0, 0, 2, CardType::Counter)
    } else if id == 5 {
        (0, 0, 2, CardType::Buff)
    } else if id == 6 {
        (5, 5, 5, CardType::Creature)
    } else if id == 7 {
        (0, 0, 0, CardType::Spell)
    } else if id == 8 {
        (3, 3, 4, CardType::Creature)
    } else if id == 9 {
        (0, 0, 2, CardType::Spell)
    } else {
        (6, 3, 4, CardType::Creature)
    }
}

/// Name of the starter card with the given id (ids 1 to 10).
pub open spec fn starter_name(id: int) -> Seq<char> {
    if id == 1 {
        "Lightning Bolt"@
    } else if id == 2 {
        "Shield Wall"@
    } else if id == 3 {
        "Swift Strike"@
    } else if id == 4 {
        "Nullify"@
    } else if id == 5 {
        "Power Surge"@
    } else if id == 6 {
        "Fire Elemental"@
    } else if id == 7 {
        "Mana Crystal"@
    } else if id == 8 {
        "Dragon Whelp"@
    } else if id == 9 {
        "Heal"@
    } else {
        "Berserker"@
    }
}

/// Description of the starter card with the given id (ids 1 to 10).
pub open spec fn starter_description(id: int) -> Seq<char> {
    if id == 1 {
        "Deal 3 damage to any target"@
    } else if id == 2 {
        "Creature with 2/5 stats"@
    } else if id == 3 {
        "Fast creature 4/2"@
    } else if id == 4 {
        "Counter target spell or ability"@
    } else if id == 5 {
        "+3/+3 to target creature"@
    } else if id == 6 {
        "Powerful creature 5/5"@
    } else if id == 7 {
        "Gain 2 mana this turn"@
    } else if id == 8 {
        "Flying creature 3/3"@
    } else if id == 9 {
        "Restore 5 health"@
    } else {
        "High attack creature 6/3"@
    }
}

/// Ability text of the starter card with the given id (ids 1 to 10), if it has one.
pub open spec fn starter_ability(id: int) -> Option<Seq<char>> {
    if id == 1 {
        None
    } else if id == 2 {
        None
    } else if id == 3 {
        Some("First Strike"@)
    } else if id == 4 {
        Some("Instant"@)
    } else if id == 5 {
        None
    } else if id == 6 {
        None
    } else if id == 7 {
        None
    } else if id == 8 {
        Some("Flying"@)
    } else if id == 9 {
        None
    } else {
        None
    }
}

/// `s` holds the ten starter cards, ids 1 to 10 in order, every field fixed.
pub open spec fn is_starter_catalog(s: Seq<Card>) -> bool {
    &&& s.len() == 10
    &&& forall|i: int|
        0 <= i < 10 ==> {
            let c = #[trigger] s[i];
            &&& c.id == i + 1
            &&& (c.attack, c.defense, c.cost, c.card_type) == starter_stats(i + 1)
            &&& c.name@ == starter_name(i + 1)
            &&& c.description@ == starter_description(i + 1)
            &&& match c.ability {
                Some(a) => starter_ability(i + 1) == Some(a@),
                None => starter_ability(i + 1) is None,
            }
        }
}

/// The ten starter cards, ids 1 to 10 in order, as the catalog holds them.
pub fn create_starter_deck() -> (r: Vec<Card>)
    ensures
        is_starter_catalog(r@),
{
    let mut v: Vec<Card> = Vec::new();
    v.push(
        Card {
            id: 1,
            name: "Lightning Bolt".to_string(),
            description: "Deal 3 damage to any target".to_string(),
            attack: 3,
            defense: 0,
            cost: 1,
            card_type: CardType::Spell,
            ability: None,
        },
    );
    v.push(
        Card {
            id: 2,
            name: "Shield Wall".to_string(),
            description: "Creature with 2/5 stats".to_string(),
            attack: 2,
            defense: 5,
            cost: 3,
            card_type: CardType::Creature,
            ability: None,
        },
    );
    v.push(
        Card {
            id: 3,
            name: "Swift Strike".to_string(),
            description: "Fast creature 4/2".to_string(),
            attack: 4,
            defense: 2,
            cost: 3,
            card_type: CardType::Creature,
            ability: Some("First Strike".to_string()),
        },
    );
    v.push(
        Card {
            id: 4,
            name: "Nullify".to_string(),
            description: "Counter target spell or ability".to_string(),
            attack: 0,
            defense: 0,
            cost: 2,
            card_type: CardType::Counter,
            ability: Some("Instant".to_string()),
        },
    );
    v.push(
        Card {
            id: 5,
            name: "Power Surge".to_string(),
            description: "+3/+3 to target creature".to_string(),
            attack: 0,
            defense: 0,
            cost: 2,
            card_type: CardType::Buff,
            ability: None,
        },
    );
    v.push(
        Card {
            id: 6,
            name: "Fire Elemental".to_string(),
            description: "Powerful creature 5/5".to_string(),
            attack: 5,
            defense: 5,
            cost: 5,
            card_type: CardType::Creature,
            ability: None,
        },
    );
    v.push(
        Card {
            id: 7,
            name: "Mana Crystal".to_string(),
            description: "Gain 2 mana this turn".to_string(),
            attack: 0,
            defense: 0,
            cost: 0,
            card_type: CardType::Spell,
            ability: None,
        },
    );
    v.push(
        Card {
            id: 8,
            name: "Dragon Whelp".to_string(),
            description: "Flying creature 3/3".to_string(),
            attack: 3,
            defense: 3,
            cost: 4,
            card_type: CardType::Creature,
            ability: Some("Flying".to_string()),
        },
    );
    v.push(
        Card {
            id: 9,
            name: "Heal".to_string(),
            description: "Restore 5 health".to_string(),
            attack: 0,
            defense: 0,
            cost: 2,
            card_type: CardType::Spell,
            ability: None,
        },
    );
    v.push(
        Card {
            id: 10,
            name: "Berserker".to_string(),
            description: "High attack creature 6/3".to_string(),
            attack: 6,
            defense: 3,
            cost: 4,
            card_type: CardType::Creature,
            ability: None,
        },
    );
    v
}

} // verus!
