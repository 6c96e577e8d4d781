//! Readings of the variant bits, one per game mode.

pub mod taiko;
