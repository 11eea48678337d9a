//! Encounter tracking for tabletop combat: an initiative-ordered roster of
//! combatants, the turn and round engine that walks through it, monster
//! catalog lookup and attack resolution with dice.

pub mod catalog;
pub mod combat;
pub mod commands;
pub mod dice;
pub mod error;
pub mod roster;
pub mod text;
pub mod turn;
