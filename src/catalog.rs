//! The monster catalog: stat blocks looked up by type, whatever the case of
//! the letters, and the monsters made from them.

use vstd::prelude::*;

use crate::dice::roll_d20;
use crate::error::EncounterError;
use crate::roster::{add_character, is_initiative_sort_of, Character, Roster};
use crate::text::{lower_of, title_case, title_of, to_lower};

verus! {

/// An attack that a monster can make.
#[derive(Clone, Debug, PartialEq, Eq)]
pub struct Action {
    pub name: String,
    pub description: String,
    pub attack_modifier: i32,
    /// The damage dice as `[count, faces]`.
    pub damage_dice: Vec<i32>,
    pub damage_bonus: i32,
    pub damage_type: String,
}

/// A trait of a monster with no effect on the rules.
#[derive(Clone, Debug, PartialEq, Eq)]
pub struct Ability {
    pub name: String,
    pub description: String,
}

/// The stat block of one monster type.
#[derive(Clone, Debug, PartialEq, Eq)]
pub struct Creature {
    pub name: String,
    pub health: i32,
    pub armor_class: i32,
    /// The modifier added to the initiative roll.
    pub initiative: i32,
    pub movement_speed: i32,
    pub strength: i32,
    pub dexterity: i32,
    pub constitution: i32,
    pub intelligence: i32,
    pub wisdom: i32,
    pub charisma: i32,
    pub actions: Vec<Action>,
    pub abilities: Vec<Ability>,
}

/// A catalog name answers to a key that differs from it in case only.
pub open spec fn names_match(name: Seq<char>, key: Seq<char>) -> bool {
    lower_of(name) == lower_of(key)
}

/// Entry `i` is the first whose name answers to `key`.
pub open spec fn is_first_match(creatures: Seq<Creature>, key: Seq<char>, i: int) -> bool {
    &&& 0 <= i < creatures.len()
    &&& names_match(creatures[i].name@, key)
    &&& forall|j: int| 0 <= j < i ==> !names_match(#[trigger] creatures[j].name@, key)
}

/// The index of the entry that `key` selects: the first whose name answers
/// to it.
pub open spec fn catalog_position(creatures: Seq<Creature>, key: Seq<char>) -> Option<int> {
    if exists|i: int| is_first_match(creatures, key, i) {
        Some(choose|i: int| is_first_match(creatures, key, i))
    } else {
        None
    }
}

proof fn lemma_first_match_unique(creatures: Seq<Creature>, key: Seq<char>, i: int, j: int)
    requires
        is_first_match(creatures, key, i),
        is_first_match(creatures, key, j),
    ensures
        i == j,
{
    if i < j {
        assert(!names_match(creatures[i].name@, key));
    } else if j < i {
        assert(!names_match(creatures[j].name@, key));
    }
}

/// The catalog entry for a monster type, matched without regard to case.
pub fn find_creature(creatures: &Vec<Creature>, key: &str) -> (r: Option<usize>)
    ensures
        match r {
            Some(i) => catalog_position(creatures@, key@) == Some(i as int),
            None => catalog_position(creatures@, key@) == None::<int>,
        },
{
    let wanted = to_lower(key);
    let mut i: usize = 0;
    while i < creatures.len()
        invariant
            i <= creatures@.len(),
            wanted@ == lower_of(key@),
            forall|j: int| 0 <= j < i ==> !names_match(#[trigger] creatures@[j].name@, key@),
        decreases creatures.len() - i,
    {
        let name = to_lower(creatures[i].name.as_str());
        if name == wanted {
            proof {
                assert(is_first_match(creatures@, key@, i as int));
                let k = choose|k: int| is_first_match(creatures@, key@, k);
                lemma_first_match_unique(creatures@, key@, i as int, k);
            }
            return Some(i);
        }
        i = i + 1;
    }
    None
}

/// Keys that differ in case only select the same catalog entry.
pub proof fn lemma_lookup_ignores_case(creatures: Seq<Creature>, a: Seq<char>, b: Seq<char>)
    requires
        lower_of(a) == lower_of(b),
    ensures
        catalog_position(creatures, a) == catalog_position(creatures, b),
{
    assert forall|i: int| is_first_match(creatures, a, i) == is_first_match(creatures, b, i) by {
        if is_first_match(creatures, a, i) {
            assert forall|j: int| 0 <= j < i implies !names_match(
                #[trigger] creatures[j].name@,
                b,
            ) by {
                assert(!names_match(creatures[j].name@, a));
            }
        }
        if is_first_match(creatures, b, i) {
            assert forall|j: int| 0 <= j < i implies !names_match(
                #[trigger] creatures[j].name@,
                a,
            ) by {
                assert(!names_match(creatures[j].name@, b));
            }
        }
    }
    if exists|i: int| is_first_match(creatures, a, i) {
        let i = choose|i: int| is_first_match(creatures, a, i);
        let j = choose|j: int| is_first_match(creatures, b, j);
        assert(is_first_match(creatures, b, i));
        lemma_first_match_unique(creatures, b, i, j);
    }
}

/// The action with 1-based number `number` of the entry that `key`
/// selects, if both exist.
pub open spec fn catalog_action(creatures: Seq<Creature>, key: Seq<char>, number: usize) -> Option<
    Action,
> {
    match catalog_position(creatures, key) {
        Some(i) => if 1 <= number <= creatures[i].actions@.len() {
            Some(creatures[i].actions@[number - 1])
        } else {
            None
        },
        None => None,
    }
}

/// The action with 1-based number `attack_number` of the monster type
/// `creature_stat`.
pub fn get_attack<'a>(creatures: &'a Vec<Creature>, creature_stat: &str, attack_number: usize) -> (r:
    Result<&'a Action, EncounterError>)
    ensures
        match catalog_action(creatures@, creature_stat@, attack_number) {
            Some(a) => r matches Ok(x) && *x == a,
            None => r matches Err(e) && e == EncounterError::LookupFailure,
        },
{
    match find_creature(creatures, creature_stat) {
        Some(i) => {
            let actions = &creatures[i].actions;
            if 1 <= attack_number && attack_number <= actions.len() {
                Ok(&actions[attack_number - 1])
            } else {
                Err(EncounterError::LookupFailure)
            }
        },
        None => Err(EncounterError::LookupFailure),
    }
}

/// A monster's initiative: the die plus its modifier, at least 1 (and at
/// most the largest `i32`).
pub open spec fn rolled_initiative(die: int, modifier: int) -> int {
    if die + modifier < 1 {
        1
    } else if die + modifier > i32::MAX {
        i32::MAX as int
    } else {
        die + modifier
    }
}

/// `c` is a monster of catalog entry `entry`, called `name` (title-cased).
pub open spec fn is_monster_of(c: Character, entry: Creature, name: Seq<char>) -> bool {
    &&& c.name@ == title_of(name)
    &&& c.character_type == entry.name
    &&& c.ac == entry.armor_class
    &&& c.hp == entry.health
}

/// A monster of catalog entry `entry`, whose initiative die came up `die`.
pub fn monster_character(entry: &Creature, name: &str, die: i32) -> (c: Character)
    ensures
        is_monster_of(c, *entry, name@),
        c.initiative == rolled_initiative(die as int, entry.initiative as int),
{
    let total = die as i64 + entry.initiative as i64;
    let initiative: i32 = if total < 1 {
        1
    } else if total > i32::MAX as i64 {
        i32::MAX
    } else {
        total as i32
    };
    Character {
        name: title_case(name),
        character_type: entry.name.clone(),
        ac: entry.armor_class,
        hp: entry.health,
        initiative,
    }
}

/// A monster of the catalog type `monster_type`, with a rolled initiative.
pub fn load_monster(creatures: &Vec<Creature>, monster_type: &str, name: &str) -> (r: Result<
    Character,
    EncounterError,
>)
    ensures
        match catalog_position(creatures@, monster_type@) {
            Some(i) => r matches Ok(c) && is_monster_of(c, creatures@[i], name@) && exists|d: int|
                1 <= d <= 20 && c.initiative == rolled_initiative(d, creatures@[i].initiative as int),
            None => r matches Err(e) && e == EncounterError::LookupFailure,
        },
{
    match find_creature(creatures, monster_type) {
        Some(i) => {
            let die = roll_d20();
            Ok(monster_character(&creatures[i], name, die))
        },
        None => Err(EncounterError::LookupFailure),
    }
}

/// Adds a monster of the catalog type `monster_type` to the roster; an
/// unknown type adds nothing.
pub fn add_monster(roster: &mut Roster, creatures: &Vec<Creature>, monster_type: &str, name: &str) -> (r:
    Result<(), EncounterError>)
    requires
        old(roster).wf(),
    ensures
        final(roster).wf(),
        match catalog_position(creatures@, monster_type@) {
            Some(i) => r is Ok && exists|c: Character|
                #![trigger is_monster_of(c, creatures@[i], name@)]
                is_monster_of(c, creatures@[i], name@) && 1 <= c.initiative && is_initiative_sort_of(
                    final(roster)@,
                    old(roster)@.push(c),
                ),
            None => r matches Err(e) && e == EncounterError::LookupFailure && final(roster)@ == old(
                roster,
            )@,
        },
{
    match load_monster(creatures, monster_type, name) {
        Ok(c) => {
            let ghost added = c;
            add_character(roster, c);
            assert(is_initiative_sort_of(roster@, old(roster)@.push(added)));
            Ok(())
        },
        Err(e) => Err(e),
    }
}

} // verus!
