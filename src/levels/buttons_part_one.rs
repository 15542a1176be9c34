//! The level where pressing a button wins.

use vstd::prelude::*;

use crate::actors::Bounds;
use crate::constants::ERR_OUT_OF_ENERGY;
use crate::levels::{
    grid_bounds, level_state, obstacle_cells, obstacles_at, start_view, Level, Outcome, OutcomeView,
};
use crate::world::{
    cell, new_player, Button, ButtonConnection, ButtonView, Orientation, Player, State, StateView,
};

verus! {

/// Walk up to the button and press it.
#[derive(Copy, Clone)]
pub struct ButtonsPartOne {}

impl Level for ButtonsPartOne {
    open spec fn spec_initial_states(&self) -> Seq<StateView> {
        seq![
            StateView {
                buttons: seq![
                    ButtonView {
                        pos: cell(6, 4),
                        connection: ButtonConnection::Unwired,
                        currently_pressed: false,
                        additional_info: "If you press this button, you win the level!"@,
                    },
                ],
                ..start_view(
                    new_player(6, 7, 10, Orientation::Up),
                    seq![],
                    seq![],
                    seq![],
                    obstacle_cells(seq![]),
                )
            },
        ]
    }

    open spec fn spec_bounds(&self) -> Bounds {
        grid_bounds()
    }

    open spec fn win_outcome(&self, state: StateView) -> OutcomeView {
        if state.player.energy == 0 {
            OutcomeView::Failure(ERR_OUT_OF_ENERGY@)
        } else if state.buttons.len() > 0 && state.buttons[0].currently_pressed {
            OutcomeView::Success
        } else {
            OutcomeView::Continue
        }
    }

    open spec fn world_step(&self, state: StateView) -> StateView {
        state
    }

    fn name(&self) -> &'static str {
        "Pressing Buttons"
    }

    fn objective(&self) -> &'static str {
        "Move the rover ({robot}) next to the button ({button}) and press it."
    }

    fn initial_code(&self) -> &'static str {
        r#"// The press_button function can be used to press buttons,
// but only if the rover is right next to one. Move the rover
// next to the button and call the press_button function.
"#
    }

    fn initial_states(&self) -> (r: Vec<State>) {
        let mut state = level_state(
            Player::new(6, 7, 10, Orientation::Up),
            vec![],
            vec![],
            vec![],
            obstacles_at(vec![]),
        );
        state.buttons = vec![
            Button::new_with_info(
                6,
                4,
                ButtonConnection::Unwired,
                "If you press this button, you win the level!".to_owned(),
            ),
        ];
        assert(state@.obstacles =~= self.spec_initial_states()[0].obstacles);
        assert(state@.goals =~= self.spec_initial_states()[0].goals);
        assert(state@.energy_cells =~= self.spec_initial_states()[0].energy_cells);
        assert(state@.enemies =~= self.spec_initial_states()[0].enemies);
        assert(state@.buttons =~= self.spec_initial_states()[0].buttons);
        let r = vec![state];
        assert(r@.map_values(|s: State| s@) =~~= self.spec_initial_states());
        r
    }

    fn bounds(&self) -> (r: Bounds) {
        Bounds::default()
    }

    fn apply_actors(&self, state: State) -> (r: State) {
        state
    }

    fn check_win(&self, state: &State) -> (r: Outcome) {
        // There is no goal to reach: pressing the button wins.
        if state.player.energy == 0 {
            Outcome::Failure(ERR_OUT_OF_ENERGY.to_owned())
        } else if state.buttons.len() > 0 && state.buttons[0].currently_pressed {
            Outcome::Success
        } else {
            Outcome::Continue
        }
    }
}

} // verus!
