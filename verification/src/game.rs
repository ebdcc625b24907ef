use vstd::prelude::*;

verus! {

/// Top-level state of the game.
#[derive(Clone, Copy, Debug, PartialEq, Eq, Hash, Structural)]
pub enum GameState {
    MainMenu,
    Game,
}

/// Difficulty picked in the menu.
#[derive(Clone, Copy, Debug, PartialEq, Eq, Hash, Structural)]
pub enum Difficulty {
    Easy,
    Medium,
    Hard,
}

/// The mode the game is played in.
#[derive(Clone, Copy, Debug, PartialEq, Eq, Hash, Structural)]
pub enum GameMode {
    NotChosen,
    Story,
    Endless,
    Sandbox,
}

impl Default for GameState {
    /// The game starts in the main menu.
    fn default() -> (s: GameState)
        ensures
            s == GameState::MainMenu,
    {
        GameState::MainMenu
    }
}

impl Default for GameMode {
    /// No mode is chosen at start.
    fn default() -> (m: GameMode)
        ensures
            m == GameMode::NotChosen,
    {
        GameMode::NotChosen
    }
}

impl Default for Difficulty {
    /// The difficulty in force before the player picks one.
    fn default() -> (d: Difficulty)
        ensures
            d == Difficulty::Easy,
    {
        Difficulty::Easy
    }
}

} // verus!
