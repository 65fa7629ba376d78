use vstd::prelude::*;

verus! {

/// The discrete state of the controlled actor; each state selects a clip.
#[derive(Clone, Copy, Debug, PartialEq, Eq, Structural)]
pub enum PlayerState {
    Idle,
    Run,
}

/// Tag for the entity that the player controls.
#[derive(Clone, Copy, Debug, PartialEq, Eq, Structural)]
pub struct Player;

/// The input policy: which state the raw key presses of one tick command.
/// The run key wins over the idle key when both are held; with neither held
/// no change is commanded.
pub open spec fn commanded_by_keys(idle_key: bool, run_key: bool) -> Option<PlayerState> {
    if run_key {
        Some(PlayerState::Run)
    } else if idle_key {
        Some(PlayerState::Idle)
    } else {
        None
    }
}

/// Resolves the keys held during one tick into at most one commanded state.
pub fn label_for_keys(idle_key: bool, run_key: bool) -> (r: Option<PlayerState>)
    ensures
        r == commanded_by_keys(idle_key, run_key),
{
    if run_key {
        Some(PlayerState::Run)
    } else if idle_key {
        Some(PlayerState::Idle)
    } else {
        None
    }
}

} // verus!
