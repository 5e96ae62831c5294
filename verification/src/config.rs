//! What the user has configured.

pub mod settings;
pub mod setup;
