//! The level without objective, for saying math expressions.

use vstd::prelude::*;

use crate::actors::Bounds;
use crate::levels::{grid_bounds, no_objective_check_win, Level, Outcome, OutcomeView};
use crate::world::{empty_world, State, StateView};

verus! {

/// Say the values of math expressions; there is nothing to win.
#[derive(Copy, Clone)]
pub struct MathExpressions {}

impl Level for MathExpressions {
    open spec fn spec_initial_states(&self) -> Seq<StateView> {
        seq![empty_world()]
    }

    open spec fn spec_bounds(&self) -> Bounds {
        grid_bounds()
    }

    open spec fn win_outcome(&self, state: StateView) -> OutcomeView {
        OutcomeView::NoObjective
    }

    open spec fn world_step(&self, state: StateView) -> StateView {
        state
    }

    fn name(&self) -> &'static str {
        "Mathematical!"
    }

    fn objective(&self) -> &'static str {
        "Call the \"say\" function with different math expressions."
    }

    fn initial_code(&self) -> &'static str {
        r#"// A "math expression" uses numbers and a mathematical operator
// (e.g. "+" or "-") to produce a value.
say(2 + 2);
say(5 - 3);
say(2 * 3);
say(6 / 2);

// Math expressions follow the same order of operations you're
// probably used to. For example, multiplication and division
// are done before addition or subtraction.
say(2 + 3 * 4);

// You can also use parenthesis to change the order of operations.
say((2 + 3) * 4);
"#
    }

    fn initial_states(&self) -> (r: Vec<State>) {
        let r = vec![State::new()];
        assert(r@.map_values(|s: State| s@) =~~= self.spec_initial_states());
        r
    }

    fn bounds(&self) -> (r: Bounds) {
        Bounds::default()
    }

    fn apply_actors(&self, state: State) -> (r: State) {
        state
    }

    fn check_win(&self, state: &State) -> (r: Outcome) {
        no_objective_check_win(state)
    }
}

} // verus!
