use encounter_tracker::catalog::{
    add_monster, find_creature, get_attack, load_monster, monster_character, Ability, Action,
    Creature,
};
use encounter_tracker::error::EncounterError;
use encounter_tracker::roster::{Character, Roster};

fn action(name: &str, modifier: i32, dice: Vec<i32>, bonus: i32, kind: &str) -> Action {
    Action {
        name: name.to_string(),
        description: format!("{} attack", name),
        attack_modifier: modifier,
        damage_dice: dice,
        damage_bonus: bonus,
        damage_type: kind.to_string(),
    }
}

fn creature(name: &str, initiative: i32, actions: Vec<Action>) -> Creature {
    Creature {
        name: name.to_string(),
        health: 7,
        armor_class: 15,
        initiative,
        movement_speed: 30,
        strength: 8,
        dexterity: 14,
        constitution: 10,
        intelligence: 10,
        wisdom: 8,
        charisma: 8,
        actions,
        abilities: vec![Ability {
            name: "Nimble Escape".to_string(),
            description: "Disengage or hide as a bonus action.".to_string(),
        }],
    }
}

fn catalog() -> Vec<Creature> {
    vec![
        creature("Wolf", 2, vec![action("Bite", 4, vec![2, 4], 2, "piercing")]),
        creature(
            "Goblin",
            2,
            vec![
                action("Scimitar", 4, vec![1, 6], 2, "slashing"),
                action("Shortbow", 4, vec![1, 6], 2, "piercing"),
            ],
        ),
        creature("Zombie", -2, vec![action("Slam", 3, vec![1, 6], 1, "bludgeoning")]),
    ]
}

#[test]
fn lookup_ignores_case() {
    let c = catalog();
    assert_eq!(find_creature(&c, "Goblin"), Some(1));
    assert_eq!(find_creature(&c, "goblin"), Some(1));
    assert_eq!(find_creature(&c, "GOBLIN"), Some(1));
    assert_eq!(find_creature(&c, "wOLF"), Some(0));
}

#[test]
fn lookup_of_unknown_type_is_none() {
    let c = catalog();
    assert_eq!(find_creature(&c, "Dragon"), None);
    assert_eq!(find_creature(&c, "gob"), None);
    assert_eq!(find_creature(&Vec::new(), "Goblin"), None);
}

#[test]
fn lookup_takes_first_matching_entry() {
    let mut c = catalog();
    c.push(creature("GOBLIN", 9, Vec::new()));
    assert_eq!(find_creature(&c, "goblin"), Some(1));
}

#[test]
fn get_attack_by_number() {
    let c = catalog();
    let a = get_attack(&c, "goblin", 2).unwrap();
    assert_eq!(a.name, "Shortbow");
    assert_eq!(a.damage_type, "piercing");
    assert_eq!(get_attack(&c, "GOBLIN", 1).unwrap().name, "Scimitar");
}

#[test]
fn get_attack_out_of_range_is_lookup_failure() {
    let c = catalog();
    assert_eq!(get_attack(&c, "Goblin", 3), Err(EncounterError::LookupFailure));
    assert_eq!(get_attack(&c, "Goblin", 0), Err(EncounterError::LookupFailure));
    assert_eq!(get_attack(&c, "Dragon", 1), Err(EncounterError::LookupFailure));
}

#[test]
fn monster_initiative_is_die_plus_modifier() {
    let c = catalog();
    let m = monster_character(&c[1], "sneaky pete", 10);
    assert_eq!(m.name, "Sneaky Pete");
    assert_eq!(m.character_type, "Goblin");
    assert_eq!((m.ac, m.hp, m.initiative), (15, 7, 12));
}

#[test]
fn monster_initiative_is_floored_at_one() {
    let c = catalog();
    assert_eq!(monster_character(&c[2], "z", 1).initiative, 1);
    assert_eq!(monster_character(&c[2], "z", 3).initiative, 1);
    assert_eq!(monster_character(&c[2], "z", 4).initiative, 2);
    let strong = creature("Titan", i32::MAX, Vec::new());
    assert_eq!(monster_character(&strong, "t", 20).initiative, i32::MAX);
}

#[test]
fn load_monster_rolls_initiative() {
    let c = catalog();
    for _ in 0..200 {
        let m = load_monster(&c, "zombie", "shambler").unwrap();
        assert_eq!(m.character_type, "Zombie");
        assert_eq!(m.name, "Shambler");
        assert!((1..=18).contains(&m.initiative));
    }
}

#[test]
fn load_monster_of_unknown_type_is_lookup_failure() {
    let c = catalog();
    assert_eq!(load_monster(&c, "dragon", "smaug"), Err(EncounterError::LookupFailure));
}

#[test]
fn add_monster_with_unknown_key_leaves_roster_unchanged() {
    let c = catalog();
    let mut roster = Roster::from_characters(vec![Character::player("ann", 14, 9)]);
    assert_eq!(add_monster(&mut roster, &c, "dragon", "smaug"), Err(EncounterError::LookupFailure));
    assert_eq!(roster.characters(), &vec![Character::player("ann", 14, 9)]);
}

#[test]
fn add_monster_inserts_in_initiative_order() {
    let c = catalog();
    let mut roster = Roster::from_characters(vec![
        Character::player("ann", 14, 30),
        Character::player("bo", 14, -5),
    ]);
    assert_eq!(add_monster(&mut roster, &c, "WOLF", "grey"), Ok(()));
    assert_eq!(roster.len(), 3);
    let wolf = roster.get(2).unwrap();
    assert_eq!(wolf.name, "Grey");
    assert_eq!(wolf.character_type, "Wolf");
    assert!((3..=22).contains(&wolf.initiative));
    assert_eq!(roster.get(1).unwrap().name, "Ann");
    assert_eq!(roster.get(3).unwrap().name, "Bo");
}
