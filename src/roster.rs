//! The roster: the combatants of an encounter, kept in initiative order.

use vstd::prelude::*;

use crate::error::EncounterError;
use crate::text::{same_text, title_case, title_of};

verus! {

/// One combatant of the encounter, a player or a monster.
#[derive(Clone, Debug, PartialEq, Eq)]
pub struct Character {
    pub name: String,
    /// `"Player"` for a player, otherwise the monster's catalog type.
    pub character_type: String,
    pub ac: i32,
    pub hp: i32,
    pub initiative: i32,
}

/// Each combatant acts no later than those with a lower initiative.
pub open spec fn initiative_order(s: Seq<Character>) -> bool {
    forall|i: int, j: int| 0 <= i < j < s.len() ==> s[i].initiative >= s[j].initiative
}

/// The test for a combatant with initiative `k`.
pub open spec fn initiative_is(k: i32) -> spec_fn(Character) -> bool {
    |c: Character| c.initiative == k
}

/// The combatants of `s` with initiative `k`, in their order in `s`.
pub open spec fn with_initiative(s: Seq<Character>, k: i32) -> Seq<Character> {
    s.filter(initiative_is(k))
}

/// `after` holds, for every initiative, the same combatants as `before` in
/// the same relative order.
pub open spec fn keeps_ties(before: Seq<Character>, after: Seq<Character>) -> bool {
    forall|k: i32|
        #![trigger with_initiative(before, k)]
        #![trigger with_initiative(after, k)]
        with_initiative(before, k) == with_initiative(after, k)
}

/// `after` is `before` sorted by initiative, highest first, equal
/// initiatives keeping their relative order.
pub open spec fn is_initiative_sort_of(after: Seq<Character>, before: Seq<Character>) -> bool {
    initiative_order(after) && keeps_ties(before, after)
}

proof fn lemma_filter_single(c: Character, k: i32)
    ensures
        with_initiative(seq![c], k) == (if c.initiative == k { seq![c] } else { Seq::<Character>::empty() }),
{
    reveal(Seq::filter);
    assert(seq![c].drop_last() =~= Seq::<Character>::empty());
    assert(Seq::<Character>::empty().filter(initiative_is(k)) == Seq::<Character>::empty());
}

proof fn lemma_filter_none(s: Seq<Character>, k: i32)
    requires
        forall|j: int| 0 <= j < s.len() ==> s[j].initiative != k,
    ensures
        with_initiative(s, k) == Seq::<Character>::empty(),
    decreases s.len(),
{
    reveal(Seq::filter);
    if s.len() > 0 {
        lemma_filter_none(s.drop_last(), k);
    }
}

proof fn lemma_filter_push(s: Seq<Character>, c: Character, k: i32)
    ensures
        with_initiative(s.push(c), k) == with_initiative(s, k) + with_initiative(seq![c], k),
{
    assert(s.push(c) =~= s + seq![c]);
    Seq::filter_distributes_over_add(s, seq![c], initiative_is(k));
}

/// Placing `c` after every combatant whose initiative is at least its own
/// sorts `s.push(c)`, when `s` is sorted.
proof fn lemma_insert_sorts(s: Seq<Character>, c: Character, p: int)
    requires
        initiative_order(s),
        0 <= p <= s.len(),
        forall|j: int| 0 <= j < p ==> s[j].initiative >= c.initiative,
        p < s.len() ==> s[p].initiative < c.initiative,
    ensures
        is_initiative_sort_of(s.insert(p, c), s.push(c)),
{
    let r = s.insert(p, c);
    let a = s.take(p);
    let b = s.skip(p);
    assert(s =~= a + b);
    assert(r =~= a + (seq![c] + b));
    assert forall|k: i32| with_initiative(s.push(c), k) == with_initiative(r, k) by {
        lemma_filter_push(s, c, k);
        lemma_filter_single(c, k);
        Seq::filter_distributes_over_add(a, b, initiative_is(k));
        Seq::filter_distributes_over_add(a, seq![c] + b, initiative_is(k));
        Seq::filter_distributes_over_add(seq![c], b, initiative_is(k));
        if c.initiative == k {
            lemma_filter_none(b, k);
            assert(with_initiative(b, k) =~= Seq::<Character>::empty());
        } else {
            assert(with_initiative(seq![c], k) =~= Seq::<Character>::empty());
        }
        assert(with_initiative(s.push(c), k) =~= with_initiative(r, k));
    }
}

/// Adds `c` to a sorted vector after every combatant whose initiative is at
/// least its own.
fn insert_by_initiative(v: &mut Vec<Character>, c: Character)
    requires
        initiative_order(old(v)@),
    ensures
        is_initiative_sort_of(final(v)@, old(v)@.push(c)),
{
    let mut p: usize = 0;
    while p < v.len() && v[p].initiative >= c.initiative
        invariant
            p <= v.len(),
            forall|j: int| 0 <= j < p ==> v@[j].initiative >= c.initiative,
        decreases v.len() - p,
    {
        p = p + 1;
    }
    proof {
        lemma_insert_sorts(v@, c, p as int);
    }
    v.insert(p, c);
}

/// Sorts `v` by initiative, highest first; equal initiatives keep their order.
pub fn sort_by_initiative(v: &mut Vec<Character>)
    ensures
        is_initiative_sort_of(final(v)@, old(v)@),
{
    let mut rest: Vec<Character> = Vec::new();
    std::mem::swap(v, &mut rest);
    let ghost all = rest@;
    let ghost mut taken: int = 0;
    assert(all.take(0) =~= v@);
    while rest.len() > 0
        invariant
            0 <= taken <= all.len(),
            rest@ == all.skip(taken),
            is_initiative_sort_of(v@, all.take(taken)),
        decreases rest.len(),
    {
        let c = rest.remove(0);
        let ghost before = v@;
        insert_by_initiative(v, c);
        proof {
            assert(all.take(taken + 1) =~= all.take(taken).push(c));
            assert forall|k: i32| with_initiative(all.take(taken + 1), k) == with_initiative(v@, k) by {
                lemma_filter_push(all.take(taken), c, k);
                lemma_filter_push(before, c, k);
                assert(with_initiative(before.push(c), k) == with_initiative(v@, k));
            }
            taken = taken + 1;
            assert(rest@ =~= all.skip(taken));
        }
    }
    proof {
        assert(all.take(taken) =~= all);
    }
}

/// The hit points given to a player, whose hit points are not tracked.
pub const PLAYER_HIT_POINTS: i32 = 999999;

/// A combatant whose role is the player role rather than a monster type.
pub open spec fn is_player(c: Character) -> bool {
    c.character_type@ == "Player"@
}

impl Character {
    /// A player with a title-cased name and untracked hit points.
    pub fn player(name: &str, ac: i32, initiative: i32) -> (c: Character)
        ensures
            c.name@ == title_of(name@),
            is_player(c),
            c.ac == ac,
            c.hp == PLAYER_HIT_POINTS,
            c.initiative == initiative,
    {
        Character {
            name: title_case(name),
            character_type: String::from_str("Player"),
            ac,
            hp: PLAYER_HIT_POINTS,
            initiative,
        }
    }

    /// Whether this combatant is a player.
    pub fn is_player(&self) -> (r: bool)
        ensures
            r == is_player(*self),
    {
        same_text(self.character_type.as_str(), "Player")
    }
}

/// The combatants of an encounter, always in initiative order.
pub struct Roster {
    characters: Vec<Character>,
}

impl View for Roster {
    type V = Seq<Character>;

    closed spec fn view(&self) -> Seq<Character> {
        self.characters@
    }
}

/// `number` is a 1-based roster number of a combatant of `s`.
pub open spec fn in_roster(s: Seq<Character>, number: usize) -> bool {
    1 <= number <= s.len()
}

impl Roster {
    /// Every roster is sorted by initiative, highest first.
    pub open spec fn wf(&self) -> bool {
        initiative_order(self@)
    }

    /// An empty roster.
    pub fn new() -> (r: Roster)
        ensures
            r.wf(),
            r@ == Seq::<Character>::empty(),
    {
        Roster { characters: Vec::new() }
    }

    /// A roster of the given combatants, sorted by initiative; equal
    /// initiatives keep their order.
    pub fn from_characters(characters: Vec<Character>) -> (r: Roster)
        ensures
            r.wf(),
            is_initiative_sort_of(r@, characters@),
    {
        let mut characters = characters;
        sort_by_initiative(&mut characters);
        Roster { characters }
    }

    /// The number of combatants.
    pub fn len(&self) -> (n: usize)
        ensures
            n == self@.len(),
    {
        self.characters.len()
    }

    /// The combatants, in turn order.
    pub fn characters(&self) -> (v: &Vec<Character>)
        ensures
            v@ == self@,
    {
        &self.characters
    }

    /// The combatant with the 1-based roster number `number`, if any.
    pub fn get(&self, number: usize) -> (r: Option<&Character>)
        ensures
            match r {
                Some(c) => in_roster(self@, number) && *c == self@[number - 1],
                None => !in_roster(self@, number),
            },
    {
        if 1 <= number && number <= self.characters.len() {
            Some(&self.characters[number - 1])
        } else {
            None
        }
    }
}

/// Adds a combatant, after those whose initiative is at least its own.
pub fn add_character(roster: &mut Roster, c: Character)
    requires
        old(roster).wf(),
    ensures
        final(roster).wf(),
        is_initiative_sort_of(final(roster)@, old(roster)@.push(c)),
{
    insert_by_initiative(&mut roster.characters, c);
}

/// Removes the combatant with roster number `number` and hands it back.
pub fn remove_creature(roster: &mut Roster, number: usize) -> (r: Result<Character, EncounterError>)
    requires
        old(roster).wf(),
    ensures
        final(roster).wf(),
        in_roster(old(roster)@, number) ==> r == Ok::<Character, EncounterError>(
            old(roster)@[number - 1],
        ) && final(roster)@ == old(roster)@.remove(number - 1),
        !in_roster(old(roster)@, number) ==> r == Err::<Character, EncounterError>(
            EncounterError::RangeError,
        ) && final(roster)@ == old(roster)@,
{
    if number < 1 || number > roster.characters.len() {
        return Err(EncounterError::RangeError);
    }
    let c = roster.characters.remove(number - 1);
    Ok(c)
}

/// `c` after taking `amount` damage (healing, for a negative amount).
pub open spec fn damaged(c: Character, amount: i32) -> Character {
    Character { hp: (c.hp - amount) as i32, ..c }
}

/// Whether `c` can take `amount` damage with its hit points still an `i32`.
pub open spec fn damage_fits(c: Character, amount: i32) -> bool {
    i32::MIN <= c.hp - amount <= i32::MAX
}

/// Deals `amount` damage to the combatant with roster number `number`; a
/// negative amount heals. Hit points are neither floored nor capped.
pub fn damage_creature(roster: &mut Roster, number: usize, amount: i32) -> (r: Result<(), EncounterError>)
    requires
        old(roster).wf(),
    ensures
        final(roster).wf(),
        !in_roster(old(roster)@, number) ==> r == Err::<(), EncounterError>(
            EncounterError::RangeError,
        ) && final(roster)@ == old(roster)@,
        in_roster(old(roster)@, number) && !damage_fits(old(roster)@[number - 1], amount) ==> r
            == Err::<(), EncounterError>(EncounterError::HitPointOverflow) && final(roster)@ == old(
            roster,
        )@,
        in_roster(old(roster)@, number) && damage_fits(old(roster)@[number - 1], amount) ==> r
            == Ok::<(), EncounterError>(()) && final(roster)@ == old(roster)@.update(
            number - 1,
            damaged(old(roster)@[number - 1], amount),
        ),
{
    if number < 1 || number > roster.characters.len() {
        return Err(EncounterError::RangeError);
    }
    let i = number - 1;
    let hp = roster.characters[i].hp as i64 - amount as i64;
    if hp < i32::MIN as i64 || hp > i32::MAX as i64 {
        return Err(EncounterError::HitPointOverflow);
    }
    let ghost before = roster.characters@;
    let mut c = roster.characters.remove(i);
    c.hp = hp as i32;
    roster.characters.insert(i, c);
    assert(roster.characters@ =~= before.update(i as int, damaged(before[i as int], amount)));
    Ok(())
}

/// The fields of a combatant that can be edited, numbered from 1 in this
/// order.
#[derive(Clone, Copy, Debug, PartialEq, Eq, Structural)]
pub enum EditField {
    Name,
    Kind,
    ArmorClass,
    HitPoints,
    Initiative,
}

impl EditField {
    /// The field with the given 1-based number.
    pub fn from_selector(selector: usize) -> (r: Result<EditField, EncounterError>)
        ensures
            selector == 1 ==> r == Ok::<EditField, EncounterError>(EditField::Name),
            selector == 2 ==> r == Ok::<EditField, EncounterError>(EditField::Kind),
            selector == 3 ==> r == Ok::<EditField, EncounterError>(EditField::ArmorClass),
            selector == 4 ==> r == Ok::<EditField, EncounterError>(EditField::HitPoints),
            selector == 5 ==> r == Ok::<EditField, EncounterError>(EditField::Initiative),
            (selector < 1 || selector > 5) ==> r == Err::<EditField, EncounterError>(
                EncounterError::RangeError,
            ),
    {
        match selector {
            1 => Ok(EditField::Name),
            2 => Ok(EditField::Kind),
            3 => Ok(EditField::ArmorClass),
            4 => Ok(EditField::HitPoints),
            5 => Ok(EditField::Initiative),
            _ => Err(EncounterError::RangeError),
        }
    }
}

/// A new value for one field of a combatant. Names and types are given as
/// typed and stored title-cased.
#[derive(Clone, Debug, PartialEq, Eq)]
pub enum FieldEdit {
    Name(String),
    Kind(String),
    ArmorClass(i32),
    HitPoints(i32),
    Initiative(i32),
}

/// `after` is `before` with `edit` applied.
pub open spec fn edited(before: Character, after: Character, edit: FieldEdit) -> bool {
    match edit {
        FieldEdit::Name(s) => {
            &&& after.name@ == title_of(s@)
            &&& after.character_type == before.character_type
            &&& after.ac == before.ac
            &&& after.hp == before.hp
            &&& after.initiative == before.initiative
        },
        FieldEdit::Kind(s) => {
            &&& after.character_type@ == title_of(s@)
            &&& after.name == before.name
            &&& after.ac == before.ac
            &&& after.hp == before.hp
            &&& after.initiative == before.initiative
        },
        FieldEdit::ArmorClass(v) => after == Character { ac: v, ..before },
        FieldEdit::HitPoints(v) => after == Character { hp: v, ..before },
        FieldEdit::Initiative(v) => after == Character { initiative: v, ..before },
    }
}

/// Applies `edit` to the combatant with roster number `number`. A new
/// initiative moves the combatant to its place in the turn order; any
/// other edit leaves the order as it is.
pub fn edit_creature(roster: &mut Roster, number: usize, edit: FieldEdit) -> (r: Result<
    (),
    EncounterError,
>)
    requires
        old(roster).wf(),
    ensures
        final(roster).wf(),
        !in_roster(old(roster)@, number) ==> r == Err::<(), EncounterError>(
            EncounterError::RangeError,
        ) && final(roster)@ == old(roster)@,
        in_roster(old(roster)@, number) ==> r == Ok::<(), EncounterError>(()),
        in_roster(old(roster)@, number) && !(edit is Initiative) ==> {
            &&& final(roster)@ == old(roster)@.update(number - 1, final(roster)@[number - 1])
            &&& edited(old(roster)@[number - 1], final(roster)@[number - 1], edit)
        },
        in_roster(old(roster)@, number) && edit is Initiative ==> is_initiative_sort_of(
            final(roster)@,
            old(roster)@.update(
                number - 1,
                Character { initiative: edit->Initiative_0, ..old(roster)@[number - 1] },
            ),
        ),
{
    if number < 1 || number > roster.characters.len() {
        return Err(EncounterError::RangeError);
    }
    let i = number - 1;
    let ghost before = roster.characters@;
    let mut c = roster.characters.remove(i);
    let reorder = match edit {
        FieldEdit::Name(s) => {
            c.name = title_case(s.as_str());
            false
        },
        FieldEdit::Kind(s) => {
            c.character_type = title_case(s.as_str());
            false
        },
        FieldEdit::ArmorClass(v) => {
            c.ac = v;
            false
        },
        FieldEdit::HitPoints(v) => {
            c.hp = v;
            false
        },
        FieldEdit::Initiative(v) => {
            c.initiative = v;
            true
        },
    };
    let ghost after = c;
    roster.characters.insert(i, c);
    assert(roster.characters@ =~= before.update(i as int, after));
    if reorder {
        sort_by_initiative(&mut roster.characters);
    }
    Ok(())
}

} // verus!
