use vstd::prelude::*;
use crate::input::{GameAction, InputBindings, KeyboardState};

verus! {

/// A level the game can load.
#[derive(Clone, Copy, Debug, PartialEq, Eq, Structural)]
pub enum Level {
    Level1,
    Level2,
}

/// The level that the switch actions ask to load this tick, if any; the
/// first level wins when both are triggered.
pub fn debug_switch_level(input_bindings: &InputBindings, keyboard: &KeyboardState) -> (r: Option<
    Level,
>)
    requires
        input_bindings.wf(),
    ensures
        r == (if input_bindings.action_triggered(GameAction::SwitchLevel1, *keyboard) {
            Some(Level::Level1)
        } else if input_bindings.action_triggered(GameAction::SwitchLevel2, *keyboard) {
            Some(Level::Level2)
        } else {
            None
        }),
{
    if input_bindings.just_pressed(GameAction::SwitchLevel1, keyboard) {
        Some(Level::Level1)
    } else if input_bindings.just_pressed(GameAction::SwitchLevel2, keyboard) {
        Some(Level::Level2)
    } else {
        None
    }
}

} // verus!
