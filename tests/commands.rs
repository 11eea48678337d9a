use encounter_tracker::commands::{input_break_check, parse_add_choice, parse_command, AddChoice, Command};
use encounter_tracker::text::same_text;

#[test]
fn break_check_on_done_and_zero() {
    assert_eq!(input_break_check("done"), 0);
    assert_eq!(input_break_check("0"), 0);
    assert_eq!(input_break_check("m"), 1);
    assert_eq!(input_break_check("3"), 1);
    assert_eq!(input_break_check(""), 1);
    assert_eq!(input_break_check("done "), 1);
}

#[test]
fn main_prompt_commands() {
    assert_eq!(parse_command("n"), Command::Next);
    assert_eq!(parse_command("p"), Command::Previous);
    assert_eq!(parse_command("s"), Command::StatSearch);
    assert_eq!(parse_command("a"), Command::Add);
    assert_eq!(parse_command("e"), Command::Edit);
    assert_eq!(parse_command("d"), Command::Damage);
    assert_eq!(parse_command("t"), Command::Attack);
    assert_eq!(parse_command("c"), Command::Clear);
    assert_eq!(parse_command("r"), Command::Remove);
    assert_eq!(parse_command("h"), Command::Help);
    assert_eq!(parse_command("quit"), Command::Quit);
    assert_eq!(parse_command("q"), Command::Unknown);
    assert_eq!(parse_command("next"), Command::Unknown);
}

#[test]
fn add_prompt_choices() {
    assert_eq!(parse_add_choice("m"), AddChoice::Monster);
    assert_eq!(parse_add_choice("p"), AddChoice::Player);
    assert_eq!(parse_add_choice("done"), AddChoice::Done);
    assert_eq!(parse_add_choice("0"), AddChoice::Done);
    assert_eq!(parse_add_choice("x"), AddChoice::Unknown);
}

#[test]
fn same_text_compares_characters() {
    assert!(same_text("goblin", "goblin"));
    assert!(!same_text("goblin", "Goblin"));
    assert!(!same_text("gob", "goblin"));
    assert!(same_text("", ""));
    assert!(same_text("épée", "épée"));
}
