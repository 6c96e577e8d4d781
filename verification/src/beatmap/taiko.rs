//! Taiko's own hit objects.

pub mod hitobject;
