//! Check resolution for a tabletop role-playing game.
//!
//! A check is a d20 roll plus the character's ability and proficiency
//! modifiers, made with an advantage state that combines what the caller
//! asks for with what the environment imposes.
pub mod config;
pub mod debug;
pub mod dice;
pub mod environment;
pub mod pc;
