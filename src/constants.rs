//! Sizes, amounts and messages of the game.

use vstd::prelude::*;

verus! {

/// Width of the grid.
pub const WIDTH: u32 = 12;

/// Height of the grid.
pub const HEIGHT: u32 = 8;

/// Max amount of energy that the player can have.
pub const MAX_ENERGY: u32 = 50;

/// The amount of energy added when the player reaches an energy cell.
pub const ENERGY_CELL_AMOUNT: u32 = 10;

/// Given when the player runs out of energy.
pub const ERR_OUT_OF_ENERGY: &'static str = "G.R.O.V.E.R. ran out of energy!";

/// Given when an enemy reaches the player.
pub const ERR_DESTROYED_BY_ENEMY: &'static str =
    "G.R.O.V.E.R. was attacked and disabled by a malfunctioning rover. Try again!";

/// Raised to stop running a script once the simulation has ended; it is
/// never shown to the user.
pub const ERR_SIMULATION_END: &'static str = "SIMULATION_END";

/// Returned from read_data when the rover is not next to a data point.
pub const ERR_NO_DATA_POINT: &'static str = "read_data only works if you are next to a data point.";

/// Returned from press_button when the rover is not next to a button.
pub const ERR_NO_BUTTON: &'static str = "press_button only works if you are next to a button.";

/// A function that scripts can call, with the kinds of its arguments.
pub struct BuiltinFunction {
    pub name: &'static str,
    pub arg_types: &'static [&'static str],
}

/// Every function that scripts can call.
pub fn builtin_functions() -> (r: Vec<BuiltinFunction>)
    ensures
        r@.map_values(|f: BuiltinFunction| f.name@) == seq!["turn_right"@, "turn_left"@, "move_forward"@, "move_backward"@, "move_down"@, "move_up"@, "move_left"@, "move_right"@, "say"@, "get_position"@, "get_orientation"@, "add"@, "read_data"@, "wait"@, "push"@, "press_button"@],
        r@.map_values(|f: BuiltinFunction| f.arg_types@.len()) == seq![0nat, 0, 1, 1, 1, 1, 1, 1, 1, 0, 0, 2, 0, 1, 2, 0],
{
    let r = vec![
        BuiltinFunction { name: "turn_right", arg_types: &[] },
        BuiltinFunction { name: "turn_left", arg_types: &[] },
        BuiltinFunction { name: "move_forward", arg_types: &["number"] },
        BuiltinFunction { name: "move_backward", arg_types: &["number"] },
        BuiltinFunction { name: "move_down", arg_types: &["number"] },
        BuiltinFunction { name: "move_up", arg_types: &["number"] },
        BuiltinFunction { name: "move_left", arg_types: &["number"] },
        BuiltinFunction { name: "move_right", arg_types: &["number"] },
        BuiltinFunction { name: "say", arg_types: &["any"] },
        BuiltinFunction { name: "get_position", arg_types: &[] },
        BuiltinFunction { name: "get_orientation", arg_types: &[] },
        BuiltinFunction { name: "add", arg_types: &["number", "number"] },
        BuiltinFunction { name: "read_data", arg_types: &[] },
        BuiltinFunction { name: "wait", arg_types: &["number"] },
        BuiltinFunction { name: "push", arg_types: &["array", "any"] },
        BuiltinFunction { name: "press_button", arg_types: &[] },
    ];
    assert(r@.map_values(|f: BuiltinFunction| f.name@) =~= seq!["turn_right"@, "turn_left"@, "move_forward"@, "move_backward"@, "move_down"@, "move_up"@, "move_left"@, "move_right"@, "say"@, "get_position"@, "get_orientation"@, "add"@, "read_data"@, "wait"@, "push"@, "press_button"@]);
    assert(r@.map_values(|f: BuiltinFunction| f.arg_types@.len()) =~= seq![0nat, 0, 1, 1, 1, 1, 1, 1, 1, 0, 0, 2, 0, 1, 2, 0]);
    r
}

} // verus!
