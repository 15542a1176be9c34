//! The level where a loop is written without help.

use vstd::prelude::*;

use crate::actors::Bounds;
use crate::levels::{
    grid_bounds, level_state, obstacle_cells, obstacles_at, start_view, std_check_win, std_outcome,
    Level, Outcome, OutcomeView,
};
use crate::world::{cell, new_player, EnergyCell, Goal, Orientation, Player, Pos, State, StateView};

verus! {

/// Write a loop without help.
#[derive(Copy, Clone)]
pub struct LoopsPartTwo {}

impl Level for LoopsPartTwo {
    open spec fn spec_initial_states(&self) -> Seq<StateView> {
        seq![start_view(
            new_player(0, 0, 10, Orientation::Right),
            seq![Goal { pos: Pos { x: 10, y: 5 } }],
            seq![EnergyCell { pos: cell(7, 3), collected: false }],
            seq![],
            obstacle_cells(seq![
                (0, 1),
                (1, 1),
                (1, 2),
                (2, 2),
                (3, 2),
                (3, 3),
                (4, 3),
                (5, 3),
                (5, 4),
                (6, 4),
                (7, 4),
                (7, 5),
                (8, 5),
                (9, 5),
                (9, 6),
                (10, 6),
                (11, 6),
                (3, 0),
                (4, 0),
                (5, 0),
                (5, 1),
                (6, 1),
                (7, 1),
                (7, 2),
                (8, 2),
                (9, 2),
                (9, 3),
                (10, 3),
                (11, 3),
                (11, 4),
                (11, 5),
            ]),
        )]
    }

    open spec fn spec_bounds(&self) -> Bounds {
        grid_bounds()
    }

    open spec fn win_outcome(&self, state: StateView) -> OutcomeView {
        std_outcome(state)
    }

    open spec fn world_step(&self, state: StateView) -> StateView {
        state
    }

    fn name(&self) -> &'static str {
        "All By Yourself"
    }

    fn objective(&self) -> &'static str {
        "Move the rover (🤖) to the goal (🏁) using a loop."
    }

    fn initial_code(&self) -> &'static str {
        r#"// Try writing a loop on your own this time.

"#
    }

    fn initial_states(&self) -> (r: Vec<State>) {
        let state = level_state(
            Player::new(0, 0, 10, Orientation::Right),
            vec![Goal { pos: Pos::new(10, 5) }],
            vec![EnergyCell::new(7, 3)],
            vec![],
            obstacles_at(vec![
                (0, 1),
                (1, 1),
                (1, 2),
                (2, 2),
                (3, 2),
                (3, 3),
                (4, 3),
                (5, 3),
                (5, 4),
                (6, 4),
                (7, 4),
                (7, 5),
                (8, 5),
                (9, 5),
                (9, 6),
                (10, 6),
                (11, 6),
                (3, 0),
                (4, 0),
                (5, 0),
                (5, 1),
                (6, 1),
                (7, 1),
                (7, 2),
                (8, 2),
                (9, 2),
                (9, 3),
                (10, 3),
                (11, 3),
                (11, 4),
                (11, 5),
            ]),
        );
        assert(state@.obstacles =~= self.spec_initial_states()[0].obstacles);
        assert(state@.goals =~= self.spec_initial_states()[0].goals);
        assert(state@.energy_cells =~= self.spec_initial_states()[0].energy_cells);
        assert(state@.enemies =~= self.spec_initial_states()[0].enemies);
        let r = vec![state];
        assert(r@.map_values(|s: State| s@) =~~= self.spec_initial_states());
        r
    }

    fn bounds(&self) -> (r: Bounds) {
        Bounds::default()
    }

    fn apply_actors(&self, state: State) -> (r: State) {
        state
    }

    fn check_win(&self, state: &State) -> (r: Outcome) {
        std_check_win(state)
    }
}

} // verus!
