//! Projects: the beatmaps that were opened, the current one and the recent
//! ones.

pub mod project;
pub mod project_manager;
pub mod projects;
