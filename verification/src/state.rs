//! The pause/game-over toggle: a two-way switch between running and paused,
//! with game over absorbing. It sits beside the pipeline — no phase reads
//! it — and reacts only to the moment the pause key is pressed.

use vstd::prelude::*;

verus! {

#[derive(Clone, Copy, Debug, PartialEq, Eq, Hash, Structural, Default)]
pub enum GameState {
    #[default]
    InGame,
    Paused,
    GameOver,
}

/// The transition a pause-key press asks for; `None` when nothing changes.
pub open spec fn next_game_state(current: GameState, escape_just_pressed: bool) -> Option<
    GameState,
> {
    if !escape_just_pressed {
        None
    } else {
        match current {
            GameState::InGame => Some(GameState::Paused),
            GameState::Paused => Some(GameState::InGame),
            GameState::GameOver => None,
        }
    }
}

/// React to the pause key: in game pauses, paused resumes, game over
/// stays put.
pub fn game_state_input_events(current: GameState, escape_just_pressed: bool) -> (next: Option<
    GameState,
>)
    ensures
        next == next_game_state(current, escape_just_pressed),
{
    if escape_just_pressed {
        match current {
            GameState::InGame => Some(GameState::Paused),
            GameState::Paused => Some(GameState::InGame),
            GameState::GameOver => None,
        }
    } else {
        None
    }
}

} // verus!
