//! Attack resolution: the roll to hit against armor class, critical hits,
//! and the damage roll.

use vstd::prelude::*;

use crate::catalog::{catalog_action, get_attack, Action, Creature};
use crate::dice::{roll_d20, roll_damage};
use crate::error::EncounterError;
use crate::roster::{in_roster, is_player, Roster};

verus! {

/// The roll to hit: the die, the die plus the attack modifier, and what
/// that means for the target.
#[derive(Clone, Copy, Debug, PartialEq, Eq, Structural)]
pub struct HitRoll {
    pub die: i32,
    pub total: i64,
    pub critical: bool,
    pub hit: bool,
}

/// `r` is the roll to hit of a die showing `die`, with `attack_modifier`,
/// against armor class `target_ac`: a natural 20 is a critical hit whatever
/// the armor class; otherwise a total of at least the armor class hits.
pub open spec fn is_hit_roll(r: HitRoll, attack_modifier: i32, target_ac: i32, die: i32) -> bool {
    &&& r.die == die
    &&& r.total == die + attack_modifier
    &&& r.critical == (die == 20)
    &&& r.hit == (r.critical || r.total >= target_ac)
}

/// Resolves the roll to hit for a die showing `die`.
pub fn roll_to_hit(attack_modifier: i32, target_ac: i32, die: i32) -> (r: HitRoll)
    ensures
        is_hit_roll(r, attack_modifier, target_ac, die),
{
    let total = die as i64 + attack_modifier as i64;
    let critical = die == 20;
    HitRoll { die, total, critical, hit: critical || total >= target_ac as i64 }
}

/// The action's damage dice are `[count, faces]`, both at least 1.
pub open spec fn dice_valid(a: Action) -> bool {
    &&& a.damage_dice@.len() == 2
    &&& a.damage_dice@[0] >= 1
    &&& a.damage_dice@[1] >= 1
}

/// The number of damage dice of a hit: the action's count, and one die more
/// for a critical hit.
pub open spec fn dice_for_hit(count: int, critical: bool) -> int {
    if critical {
        count + 1
    } else {
        count
    }
}

/// The number of damage dice of a hit with `count` dice.
pub fn damage_dice_count(count: i32, critical: bool) -> (n: u64)
    requires
        count >= 1,
    ensures
        n == dice_for_hit(count as int, critical),
{
    if critical {
        count as u64 + 1
    } else {
        count as u64
    }
}

/// What an attack came to. The damage fields are present exactly when the
/// attack hit.
#[derive(Clone, Debug, PartialEq, Eq)]
pub struct AttackOutcome {
    pub die: i32,
    pub roll_total: i64,
    pub critical: bool,
    pub hit: bool,
    /// The sum of the damage dice.
    pub dice_total: Option<i64>,
    /// The sum of the damage dice plus the damage bonus.
    pub damage: Option<i64>,
    pub damage_type: Option<String>,
}

/// `o` carries the roll to hit `roll` and, on a hit, damage dice summing to
/// `dice_total` together with the action's bonus and damage type.
pub open spec fn is_outcome_of(o: AttackOutcome, action: Action, roll: HitRoll, dice_total: int) -> bool {
    &&& o.die == roll.die
    &&& o.roll_total == roll.total
    &&& o.critical == roll.critical
    &&& o.hit == roll.hit
    &&& roll.hit ==> {
        &&& o.dice_total == Some(dice_total as i64)
        &&& o.damage == Some((dice_total + action.damage_bonus) as i64)
        &&& o.damage_type == Some(action.damage_type)
    }
    &&& !roll.hit ==> o.dice_total is None && o.damage is None && o.damage_type is None
}

/// The outcome of an attack with `action` whose roll to hit is `roll` and
/// whose damage dice, if it hit, sum to `dice_total`.
pub fn finish_attack(action: &Action, roll: HitRoll, dice_total: i64) -> (o: AttackOutcome)
    requires
        i64::MIN <= dice_total + action.damage_bonus <= i64::MAX,
    ensures
        is_outcome_of(o, *action, roll, dice_total as int),
{
    if roll.hit {
        AttackOutcome {
            die: roll.die,
            roll_total: roll.total,
            critical: roll.critical,
            hit: true,
            dice_total: Some(dice_total),
            damage: Some(dice_total + action.damage_bonus as i64),
            damage_type: Some(action.damage_type.clone()),
        }
    } else {
        AttackOutcome {
            die: roll.die,
            roll_total: roll.total,
            critical: roll.critical,
            hit: false,
            dice_total: None,
            damage: None,
            damage_type: None,
        }
    }
}

/// `o` is an outcome that an attack with `action` against armor class
/// `target_ac` can have: a d20 roll to hit and, on a hit, the damage dice
/// for it, each between 1 and the number of faces.
pub open spec fn is_possible_outcome(o: AttackOutcome, action: Action, target_ac: i32) -> bool {
    let n = dice_for_hit(action.damage_dice@[0] as int, o.die == 20);
    &&& 1 <= o.die <= 20
    &&& is_hit_roll(
        HitRoll { die: o.die, total: o.roll_total, critical: o.critical, hit: o.hit },
        action.attack_modifier,
        target_ac,
        o.die,
    )
    &&& o.hit ==> exists|t: int|
        #![trigger is_outcome_of(o, action, HitRoll { die: o.die, total: o.roll_total, critical: o.critical, hit: o.hit }, t)]
        n <= t <= n * action.damage_dice@[1] && is_outcome_of(
            o,
            action,
            HitRoll { die: o.die, total: o.roll_total, critical: o.critical, hit: o.hit },
            t,
        )
    &&& !o.hit ==> o.dice_total is None && o.damage is None && o.damage_type is None
}

/// Rolls an attack with `action` against armor class `target_ac`.
pub fn resolve_attack(action: &Action, target_ac: i32) -> (r: Result<AttackOutcome, EncounterError>)
    ensures
        !dice_valid(*action) ==> r == Err::<AttackOutcome, EncounterError>(
            EncounterError::InvalidDice,
        ),
        dice_valid(*action) ==> (r matches Ok(o) && is_possible_outcome(o, *action, target_ac)),
{
    if action.damage_dice.len() != 2 || action.damage_dice[0] < 1 || action.damage_dice[1] < 1 {
        return Err(EncounterError::InvalidDice);
    }
    let count = action.damage_dice[0];
    let faces = action.damage_dice[1];
    let die = roll_d20();
    let roll = roll_to_hit(action.attack_modifier, target_ac, die);
    let dice_total = if roll.hit {
        let n = damage_dice_count(count, roll.critical);
        let t = roll_damage(n, faces);
        proof {
            assert(t <= 0x8000_0000 * faces) by (nonlinear_arith)
                requires
                    t <= n * faces,
                    n <= 0x8000_0000,
                    faces >= 1,
            ;
        }
        t
    } else {
        0
    };
    let o = finish_attack(action, roll, dice_total);
    assert(roll == HitRoll { die: o.die, total: o.roll_total, critical: o.critical, hit: o.hit });
    Ok(o)
}

/// Has the combatant with roster number `attacker`, a monster, attack the
/// one with roster number `target` using its action number `attack_number`
/// from the catalog.
pub fn attack(
    roster: &Roster,
    creatures: &Vec<Creature>,
    attacker: usize,
    target: usize,
    attack_number: usize,
) -> (r: Result<AttackOutcome, EncounterError>)
    ensures
        !in_roster(roster@, attacker) ==> r == Err::<AttackOutcome, EncounterError>(
            EncounterError::RangeError,
        ),
        in_roster(roster@, attacker) && is_player(roster@[attacker - 1]) ==> r == Err::<
            AttackOutcome,
            EncounterError,
        >(EncounterError::PlayerAttacker),
        in_roster(roster@, attacker) && !is_player(roster@[attacker - 1]) ==> {
            let action = catalog_action(
                creatures@,
                roster@[attacker - 1].character_type@,
                attack_number,
            );
            &&& !in_roster(roster@, target) ==> r == Err::<AttackOutcome, EncounterError>(
                EncounterError::RangeError,
            )
            &&& in_roster(roster@, target) && action is None ==> r == Err::<
                AttackOutcome,
                EncounterError,
            >(EncounterError::LookupFailure)
            &&& in_roster(roster@, target) && action is Some && !dice_valid(action->0) ==> r
                == Err::<AttackOutcome, EncounterError>(EncounterError::InvalidDice)
            &&& in_roster(roster@, target) && action is Some && dice_valid(action->0) ==> (r matches Ok(
                o,
            ) && is_possible_outcome(o, action->0, roster@[target - 1].ac))
        },
{
    let attacking = match roster.get(attacker) {
        Some(c) => c,
        None => return Err(EncounterError::RangeError),
    };
    if attacking.is_player() {
        return Err(EncounterError::PlayerAttacker);
    }
    let attacked = match roster.get(target) {
        Some(c) => c,
        None => return Err(EncounterError::RangeError),
    };
    let action = get_attack(creatures, attacking.character_type.as_str(), attack_number)?;
    resolve_attack(action, attacked.ac)
}

} // verus!
