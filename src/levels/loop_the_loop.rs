//! The level that teaches while loops.

use vstd::prelude::*;

use crate::actors::Bounds;
use crate::levels::{
    grid_bounds, level_state, obstacle_cells, obstacles_at, start_view, std_check_win, std_outcome,
    Level, Outcome, OutcomeView,
};
use crate::world::{cell, new_player, EnergyCell, Goal, Orientation, Player, Pos, State, StateView};

verus! {

/// Climb the staircase with a while loop.
#[derive(Copy, Clone)]
pub struct LoopTheLoop {}

impl Level for LoopTheLoop {
    open spec fn spec_initial_states(&self) -> Seq<StateView> {
        seq![start_view(
            new_player(0, 7, 5, Orientation::Right),
            seq![Goal { pos: Pos { x: 8, y: 0 } }],
            seq![EnergyCell { pos: cell(3, 5), collected: false }],
            seq![],
            obstacle_cells(seq![
                (0, 6),
                (0, 5),
                (1, 5),
                (1, 4),
                (2, 4),
                (2, 3),
                (3, 3),
                (3, 2),
                (4, 2),
                (4, 1),
                (5, 1),
                (5, 0),
                (6, 0),
                (2, 7),
                (3, 7),
                (3, 6),
                (4, 6),
                (4, 5),
                (5, 5),
                (5, 4),
                (6, 4),
                (6, 3),
                (7, 3),
                (7, 2),
                (8, 2),
                (8, 1),
                (9, 1),
                (9, 0),
            ]),
        )]
    }

    open spec fn spec_bounds(&self) -> Bounds {
        grid_bounds()
    }

    open spec fn win_outcome(&self, state: StateView) -> OutcomeView {
        std_outcome(state)
    }

    open spec fn world_step(&self, state: StateView) -> StateView {
        state
    }

    fn name(&self) -> &'static str {
        "Loop the Loop"
    }

    fn objective(&self) -> &'static str {
        "Move the rover (🤖) to the goal (🏁) using a while loop."
    }

    fn initial_code(&self) -> &'static str {
        r#"// Instead of writing the same code over and over, you can
// use a "while loop" to repeat any code you want. Try using
// a while loop below:

while true {
  move_right(1);
  // Add a line of code here.
  
}
"#
    }

    fn initial_states(&self) -> (r: Vec<State>) {
        let state = level_state(
            Player::new(0, 7, 5, Orientation::Right),
            vec![Goal { pos: Pos::new(8, 0) }],
            vec![EnergyCell::new(3, 5)],
            vec![],
            obstacles_at(vec![
                (0, 6),
                (0, 5),
                (1, 5),
                (1, 4),
                (2, 4),
                (2, 3),
                (3, 3),
                (3, 2),
                (4, 2),
                (4, 1),
                (5, 1),
                (5, 0),
                (6, 0),
                (2, 7),
                (3, 7),
                (3, 6),
                (4, 6),
                (4, 5),
                (5, 5),
                (5, 4),
                (6, 4),
                (6, 3),
                (7, 3),
                (7, 2),
                (8, 2),
                (8, 1),
                (9, 1),
                (9, 0),
            ]),
        );
        assert(state@.obstacles =~= self.spec_initial_states()[0].obstacles);
        assert(state@.goals =~= self.spec_initial_states()[0].goals);
        assert(state@.energy_cells =~= self.spec_initial_states()[0].energy_cells);
        assert(state@.enemies =~= self.spec_initial_states()[0].enemies);
        let r = vec![state];
        assert(r@.map_values(|s: State| s@) =~~= self.spec_initial_states());
        r
    }

    fn bounds(&self) -> (r: Bounds) {
        Bounds::default()
    }

    fn apply_actors(&self, state: State) -> (r: State) {
        state
    }

    fn check_win(&self, state: &State) -> (r: Outcome) {
        std_check_win(state)
    }
}

} // verus!
