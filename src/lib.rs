//! A falling-character ("digital rain") simulation for a character grid.
//!
//! The library holds the simulation: the random policies that shape each
//! falling character, the life of one character, and the frame step that
//! turns the set of live characters into draw commands and the next set.
//! Every random choice is made by a deterministic function of explicit draws;
//! a thin layer on top takes those draws from the process-wide generator.

pub mod policy;
pub mod cell;
pub mod window;
