//! Finding the cables of a room in a table of cable records.
//!
//! Each record names rooms in three fields: a free text that lists the rooms a cable
//! passes through, and two short fields for the rooms at its ends. A lookup reads
//! these fields from every row, holds them against the room that was asked for, and
//! tells for each cable whether it passes through the room, ends in it, or both.

pub mod cell;
pub mod decimal;
pub mod dialogue;
pub mod laws;
pub mod model;
pub mod parse;
pub mod report;
pub mod split;
