//! The game's main screens and transitions between them.

use vstd::prelude::*;

verus! {

/// The top-level screens the game can show.
#[derive(Clone, Copy, Debug, PartialEq, Eq, Structural, Hash)]
pub enum Screen {
    Splash,
    Loading,
    MainMenu,
    Settings,
    Tutorial,
    Credits,
    Game,
    RestartGame,
    Score,
    Quit,
}

impl Default for Screen {
    fn default() -> (r: Screen)
        ensures
            r == Screen::Splash,
    {
        Screen::Splash
    }
}

/// Whether gameplay is on screen.
pub fn in_game(state: Option<&Screen>) -> (r: bool)
    ensures
        r == match state {
            Some(s) => *s == Screen::Game,
            None => false,
        },
{
    match state {
        Some(s) => *s == Screen::Game,
        None => false,
    }
}

/// A queued request to fade out and switch to another screen.
pub struct TransitionScreen(pub Screen);

} // verus!
