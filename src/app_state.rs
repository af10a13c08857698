//! The screens of the game and the global buttons that move between them.
use vstd::prelude::*;

use crate::level::LoadingLevel;

verus! {

#[derive(Clone, Copy, Debug, PartialEq, Eq, Hash, Structural)]
pub enum AppState {
    MainMenu,
    InGame,
    Loading,
    Paused,
}

/// State of the global buttons for one input tick.
#[derive(Clone, Copy, Debug, PartialEq, Eq, Structural)]
pub struct GlobalInput {
    pub start_pressed: bool,
    pub start_just_pressed: bool,
    pub select_pressed: bool,
}

/// What the global buttons ask for.
#[derive(Debug)]
pub struct GlobalOutcome {
    /// Quit the game.
    pub exit: bool,
    /// The screen to switch to.
    pub next_state: Option<AppState>,
    /// The level to load on entering the loading screen.
    pub load: Option<LoadingLevel>,
}

/// Start and select held together quit. Start, when it goes down, starts the
/// overworld from the main menu, pauses a running game and resumes a paused one; it
/// does nothing while loading.
pub fn global_input_system(state: AppState, input: &GlobalInput) -> (r: GlobalOutcome)
    ensures
        r.exit == (input.select_pressed && input.start_pressed),
        !input.start_just_pressed ==> r.next_state is None && r.load is None,
        input.start_just_pressed ==> match state {
            AppState::Loading => r.next_state is None && r.load is None,
            AppState::MainMenu => r.next_state == Some(AppState::Loading) && r.load == Some(
                LoadingLevel::Overworld,
            ),
            AppState::InGame => r.next_state == Some(AppState::Paused) && r.load is None,
            AppState::Paused => r.next_state == Some(AppState::InGame) && r.load is None,
        },
{
    let exit = input.select_pressed && input.start_pressed;
    if !input.start_just_pressed {
        return GlobalOutcome { exit, next_state: None, load: None };
    }
    match state {
        AppState::Loading => GlobalOutcome { exit, next_state: None, load: None },
        AppState::MainMenu => GlobalOutcome {
            exit,
            next_state: Some(AppState::Loading),
            load: Some(LoadingLevel::Overworld),
        },
        AppState::InGame => GlobalOutcome { exit, next_state: Some(AppState::Paused), load: None },
        AppState::Paused => GlobalOutcome { exit, next_state: Some(AppState::InGame), load: None },
    }
}

} // verus!
