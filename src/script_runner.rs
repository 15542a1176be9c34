//! Turns the primitive calls of a player's script into simulation steps,
//! and keeps the source position of every step.

use vstd::prelude::*;

use crate::actors::{first_index, Action};
use crate::levels::{is_terminal, Level, Outcome};
use crate::simulation::{get_adjacent_terminal, point_next_to, sim_step, SimView, Simulation};
use crate::world::{Duplicate, Pos, State, TermData};

verus! {

/// A place in the script's source text.
#[derive(Clone, Copy, PartialEq, Eq, Structural, Debug)]
pub struct SourcePos {
    pub line: usize,
    pub column: usize,
}

/// What a run of a script produced: every state, the source position that
/// produced each (none for the initial state), and the final outcome.
pub struct ScriptResult {
    pub states: Vec<State>,
    pub positions: Vec<Option<SourcePos>>,
    pub outcome: Outcome,
}

/// The line to report for a missing statement terminator found at `line`:
/// the interpreter notices it at the start of the next line, so the report
/// moves back to the line before, where there is one.
pub fn missing_terminator_line(line: usize) -> (r: usize)
    ensures
        line > 1 ==> r == line - 1,
        line <= 1 ==> r == line,
{
    if line > 1 {
        line - 1
    } else {
        line
    }
}

/// The simulation after a primitive that sends `action` and steps, `n`
/// times over; it stops early once the run has ended.
pub open spec fn repeat_action<L: Level>(v: SimView, level: L, action: Action, n: nat) -> SimView
    decreases n,
{
    if n == 0 {
        v
    } else {
        let w = repeat_action(v, level, action, (n - 1) as nat);
        if is_terminal(w.outcome) {
            w
        } else {
            sim_step(SimView { pending: w.pending.push(action), ..w }, level).0
        }
    }
}

/// A run that has ended is left as it is by any further repetition.
pub proof fn lemma_repeat_after_end<L: Level>(v: SimView, level: L, action: Action, m: nat, n: nat)
    requires
        m <= n,
        is_terminal(repeat_action(v, level, action, m).outcome),
    ensures
        repeat_action(v, level, action, n) == repeat_action(v, level, action, m),
    decreases n - m,
{
    if m < n {
        lemma_repeat_after_end(v, level, action, m, (n - 1) as nat);
    }
}

/// Drives a simulation from the primitives of a script, and keeps for every
/// state of the history the source position of the primitive that produced
/// it.
pub struct ScriptRunner<L: Level> {
    simulation: Simulation<L>,
    step_positions: Vec<Option<SourcePos>>,
}

impl<L: Level> ScriptRunner<L> {
    pub closed spec fn simulation(&self) -> SimView {
        self.simulation@
    }

    pub closed spec fn level(&self) -> L {
        self.simulation.level()
    }

    /// The source position of every state so far; none for states that no
    /// primitive produced.
    pub closed spec fn trace(&self) -> Seq<Option<SourcePos>> {
        self.step_positions@
    }

    pub closed spec fn wf(&self) -> bool {
        &&& self.simulation.wf()
        &&& self.step_positions.len() == self.simulation@.history.len()
    }

    /// A runner over a simulation; the states it already holds have no
    /// source position.
    pub fn new(simulation: Simulation<L>) -> (r: ScriptRunner<L>)
        requires
            simulation.wf(),
        ensures
            r.wf(),
            r.simulation() == simulation@,
            r.level() == simulation.level(),
            r.trace() == Seq::new(simulation@.history.len(), |i: int| None::<SourcePos>),
            r.trace().len() == r.simulation().history.len(),
    {
        let n = simulation.get_history().len();
        let mut step_positions: Vec<Option<SourcePos>> = Vec::new();
        let mut i: usize = 0;
        while i < n
            invariant
                i <= n,
                step_positions@ == Seq::new(i as nat, |j: int| None::<SourcePos>),
            decreases n - i,
        {
            step_positions.push(None);
            i += 1;
            assert(step_positions@ =~= Seq::new(i as nat, |j: int| None::<SourcePos>));
        }
        proof {
            assert(simulation@.history.len() == n);
        }
        ScriptRunner { simulation, step_positions }
    }

    /// Starts a run of `level` from its initial state number `seed`, with no
    /// action pending and a trace that holds one empty position, for the
    /// initial state.
    pub fn load_level(&mut self, level: L, seed: usize)
        requires
            seed < level.spec_initial_states().len(),
        ensures
            final(self).wf(),
            final(self).level() == level,
            final(self).simulation().history == seq![level.spec_initial_states()[seed as int]],
            final(self).simulation().history[0].wf(),
            final(self).simulation().pending == Seq::<Action>::empty(),
            final(self).simulation().outcome == crate::levels::OutcomeView::Continue,
            final(self).trace() == seq![None::<SourcePos>],
            final(self).trace().len() == final(self).simulation().history.len(),
    {
        self.simulation.load_level(level, seed);
        self.simulation.clear_actions();
        self.step_positions = Vec::new();
        self.step_positions.push(None);
        assert(self.step_positions@ =~= seq![None::<SourcePos>]);
    }

    /// Runs a primitive of the script that sends `action` and steps the
    /// simulation, `count` times over (none when `count` is not positive),
    /// and records `pos` once for every state this adds. It stops early once
    /// the run has ended: later steps would change nothing.
    pub fn run_primitive(&mut self, action: Action, count: i64, pos: Option<SourcePos>)
        requires
            old(self).wf(),
        ensures
            final(self).wf(),
            final(self).level() == old(self).level(),
            final(self).simulation() == repeat_action(
                old(self).simulation(),
                old(self).level(),
                action,
                if count > 0 {
                    count as nat
                } else {
                    0
                },
            ),
            final(self).trace() == old(self).trace() + Seq::new(
                (final(self).simulation().history.len() - old(self).simulation().history.len()) as nat,
                |i: int| pos,
            ),
            final(self).trace().len() == final(self).simulation().history.len(),
    {
        let ghost v = self.simulation@;
        let ghost level = self.simulation.level();
        let ghost trace0 = self.step_positions@;
        let mut i: i64 = 0;
        while i < count
            invariant
                0 <= i,
                count > 0 ==> i <= count,
                count <= 0 ==> i == 0,
                self.simulation.wf(),
                self.simulation.level() == level,
                self.simulation@ == repeat_action(v, level, action, i as nat),
                self.simulation@.history.len() >= v.history.len(),
                self.step_positions@ == trace0 + Seq::new(
                    (self.simulation@.history.len() - v.history.len()) as nat,
                    |j: int| pos,
                ),
                trace0.len() == v.history.len(),
                v == old(self).simulation@,
                level == old(self).simulation.level(),
                trace0 == old(self).step_positions@,
            decreases count - i,
        {
            if self.simulation.last_outcome().is_terminal() {
                proof {
                    lemma_repeat_after_end(v, level, action, i as nat, count as nat);
                }
                return;
            }
            let ghost before = self.step_positions@;
            self.simulation.send_action(action.clone());
            self.simulation.step_forward();
            self.step_positions.push(pos);
            i += 1;
            assert(self.step_positions@ =~= trace0 + Seq::new(
                (self.simulation@.history.len() - v.history.len()) as nat,
                |j: int| pos,
            ));
        }
    }

    /// Whether the run has ended, so that the rest of the script need not
    /// run.
    pub fn has_ended(&self) -> (r: bool)
        ensures
            r == is_terminal(self.simulation().outcome),
    {
        self.simulation.last_outcome().is_terminal()
    }

    /// The player's position in the latest state.
    pub fn position(&self) -> (r: Pos)
        requires
            self.wf(),
        ensures
            r == self.simulation().history.last().player.pos,
    {
        self.simulation.curr_state().player.pos
    }

    /// The payload of the first data point next to the player, if any: what
    /// a read primitive hands back to the script.
    pub fn adjacent_data(&self) -> (r: Option<TermData>)
        requires
            self.wf(),
        ensures
            ({
                let last = self.simulation().history.last();
                match first_index(last.data_points, point_next_to(last.player.pos)) {
                    Some(i) => r matches Some(d) && d@ == last.data_points[i].data,
                    None => r is None,
                }
            }),
    {
        let state = self.simulation.curr_state();
        let pos = state.player.pos;
        match get_adjacent_terminal(&state, &pos) {
            Some(i) => Some(state.data_points[i].data.duplicate()),
            None => None,
        }
    }

    /// The history, the trace aligned with it, and the outcome.
    pub fn result(&self) -> (r: ScriptResult)
        requires
            self.wf(),
        ensures
            r.states@.map_values(|s: State| s@) == self.simulation().history,
            r.positions@ == self.trace(),
            r.outcome@ == self.simulation().outcome,
            r.states.len() == r.positions.len(),
    {
        let states = self.simulation.get_history();
        let mut positions: Vec<Option<SourcePos>> = Vec::new();
        let mut i: usize = 0;
        while i < self.step_positions.len()
            invariant
                i <= self.step_positions.len(),
                positions@ == self.step_positions@.subrange(0, i as int),
            decreases self.step_positions.len() - i,
        {
            positions.push(self.step_positions[i]);
            i += 1;
            assert(positions@ =~= self.step_positions@.subrange(0, i as int));
        }
        assert(positions@ =~= self.step_positions@);
        ScriptResult { states, positions, outcome: self.simulation.last_outcome() }
    }
}

} // verus!
