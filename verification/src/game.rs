//! What an installed version of a game says of itself.

use vstd::prelude::*;
use crate::sdk::SDK;

verus! {

/// The version of the packaged game, by which its jar is found.
#[derive(Debug)]
pub struct GameMetadata {
    pub version: String,
}

/// How a version of a game is started.
#[derive(Debug)]
pub struct GameConfig {
    /// The entries of the classpath, relative to the data directory, in the
    /// order in which the runtime searches them.
    pub classpath: Vec<String>,
    /// The runtime that the game asks for.
    pub sdk: SDK,
    /// The class whose `main` starts the game.
    pub main_class: String,
    /// The game that this version belongs to.
    pub game: String,
}

} // verus!
