//! What the game keeps between runs: character saves and window settings.

pub mod saves;
pub mod settings;
