//! The words typed at the prompts and what they ask for.

use vstd::prelude::*;

use crate::text::same_text;

verus! {

/// What a line typed at the main prompt asks for.
#[derive(Clone, Copy, Debug, PartialEq, Eq, Structural)]
pub enum Command {
    Next,
    Previous,
    StatSearch,
    Add,
    Edit,
    Damage,
    Attack,
    Clear,
    Remove,
    Help,
    Quit,
    Unknown,
}

/// The command that a typed line stands for.
pub open spec fn command_of(s: Seq<char>) -> Command {
    if s == "n"@ {
        Command::Next
    } else if s == "p"@ {
        Command::Previous
    } else if s == "s"@ {
        Command::StatSearch
    } else if s == "a"@ {
        Command::Add
    } else if s == "e"@ {
        Command::Edit
    } else if s == "d"@ {
        Command::Damage
    } else if s == "t"@ {
        Command::Attack
    } else if s == "c"@ {
        Command::Clear
    } else if s == "r"@ {
        Command::Remove
    } else if s == "h"@ {
        Command::Help
    } else if s == "quit"@ {
        Command::Quit
    } else {
        Command::Unknown
    }
}

/// Reads a line typed at the main prompt.
pub fn parse_command(s: &str) -> (c: Command)
    ensures
        c == command_of(s@),
{
    if same_text(s, "n") {
        Command::Next
    } else if same_text(s, "p") {
        Command::Previous
    } else if same_text(s, "s") {
        Command::StatSearch
    } else if same_text(s, "a") {
        Command::Add
    } else if same_text(s, "e") {
        Command::Edit
    } else if same_text(s, "d") {
        Command::Damage
    } else if same_text(s, "t") {
        Command::Attack
    } else if same_text(s, "c") {
        Command::Clear
    } else if same_text(s, "r") {
        Command::Remove
    } else if same_text(s, "h") {
        Command::Help
    } else if same_text(s, "quit") {
        Command::Quit
    } else {
        Command::Unknown
    }
}

/// Whether a typed line ends a sub-menu: `"done"` and `"0"` do.
pub open spec fn ends_menu(s: Seq<char>) -> bool {
    s == "done"@ || s == "0"@
}

/// 0 when the typed line ends a sub-menu, 1 otherwise.
pub fn input_break_check(input: &str) -> (r: usize)
    ensures
        r == (if ends_menu(input@) { 0usize } else { 1usize }),
{
    if same_text(input, "done") || same_text(input, "0") {
        0
    } else {
        1
    }
}

/// What a line typed at the prompt for adding combatants asks for.
#[derive(Clone, Copy, Debug, PartialEq, Eq, Structural)]
pub enum AddChoice {
    Monster,
    Player,
    Done,
    Unknown,
}

/// The choice that a line typed at the prompt for adding stands for.
pub open spec fn add_choice_of(s: Seq<char>) -> AddChoice {
    if ends_menu(s) {
        AddChoice::Done
    } else if s == "m"@ {
        AddChoice::Monster
    } else if s == "p"@ {
        AddChoice::Player
    } else {
        AddChoice::Unknown
    }
}

/// Reads a line typed at the prompt for adding combatants.
pub fn parse_add_choice(s: &str) -> (c: AddChoice)
    ensures
        c == add_choice_of(s@),
{
    if input_break_check(s) == 0 {
        AddChoice::Done
    } else if same_text(s, "m") {
        AddChoice::Monster
    } else if same_text(s, "p") {
        AddChoice::Player
    } else {
        AddChoice::Unknown
    }
}

} // verus!
