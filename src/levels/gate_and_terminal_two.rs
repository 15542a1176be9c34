//! The level with a password gate and the data point that holds its
//! password.

use vstd::prelude::*;

use crate::actors::Bounds;
use crate::levels::{
    grid_bounds, level_state, obstacle_cells, obstacles_at, start_view, std_check_win, std_outcome,
    Level, Outcome, OutcomeView,
};
use crate::world::{
    cell, new_player, DataPoint, DataPointView, GateVariant, Goal, Orientation, PasswordGate,
    PasswordGateView, Player, Pos, State, StateView, TermDataView,
};

verus! {

/// Read the password from a data point, then open a gate with it.
#[derive(Copy, Clone)]
pub struct GateAndTerminalPartTwo {}

impl Level for GateAndTerminalPartTwo {
    open spec fn spec_initial_states(&self) -> Seq<StateView> {
        seq![
            StateView {
                password_gates: seq![
                    PasswordGateView {
                        pos: cell(9, 2),
                        password: "hopper"@,
                        open: false,
                        variant: GateVariant::NESW,
                        additional_info: Seq::empty(),
                        wrong_password: false,
                    },
                ],
                data_points: seq![
                    DataPointView {
                        pos: cell(10, 0),
                        data: TermDataView::Text("hopper"@),
                        reading: false,
                    },
                ],
                ..start_view(
                    new_player(11, 1, 10, Orientation::Left),
                    seq![Goal { pos: Pos { x: 9, y: 4 } }],
                    seq![],
                    seq![],
                    obstacle_cells(seq![
                        (8, 0),
                        (8, 1),
                        (8, 2),
                        (9, 0),
                        (10, 2),
                        (11, 0),
                        (11, 2),
                    ]),
                )
            },
        ]
    }

    open spec fn spec_bounds(&self) -> Bounds {
        grid_bounds()
    }

    open spec fn win_outcome(&self, state: StateView) -> OutcomeView {
        std_outcome(state)
    }

    open spec fn world_step(&self, state: StateView) -> StateView {
        state
    }

    fn name(&self) -> &'static str {
        "Slipped My Mind"
    }

    fn objective(&self) -> &'static str {
        "Get the password from the data terminal ({terminal}), unlock that gate ({gate}), then move the rover ({robot}) to the goal ({goal})."
    }

    fn initial_code(&self) -> &'static str {
        r#"// Yet another locked gate! Just like before, the password is
// stored in a data terminal. Can you get through on your own
// this time?
//
// ADD YOUR CODE BELOW
"#
    }

    fn initial_states(&self) -> (r: Vec<State>) {
        let mut state = level_state(
            Player::new(11, 1, 10, Orientation::Left),
            vec![Goal { pos: Pos::new(9, 4) }],
            vec![],
            vec![],
            obstacles_at(vec![
                (8, 0),
                (8, 1),
                (8, 2),
                (9, 0),
                (10, 2),
                (11, 0),
                (11, 2),
            ]),
        );
        state.password_gates = vec![
            PasswordGate::new(9, 2, "hopper".to_owned(), false, GateVariant::NESW),
        ];
        state.data_points = vec![DataPoint::new(10, 0, "hopper".to_owned())];
        assert(state@.obstacles =~= self.spec_initial_states()[0].obstacles);
        assert(state@.goals =~= self.spec_initial_states()[0].goals);
        assert(state@.energy_cells =~= self.spec_initial_states()[0].energy_cells);
        assert(state@.enemies =~= self.spec_initial_states()[0].enemies);
        assert(state@.password_gates =~= self.spec_initial_states()[0].password_gates);
        assert(state@.data_points =~= self.spec_initial_states()[0].data_points);
        let r = vec![state];
        assert(r@.map_values(|s: State| s@) =~~= self.spec_initial_states());
        r
    }

    fn bounds(&self) -> (r: Bounds) {
        Bounds::default()
    }

    fn apply_actors(&self, state: State) -> (r: State) {
        state
    }

    fn check_win(&self, state: &State) -> (r: Outcome) {
        std_check_win(state)
    }
}

} // verus!
