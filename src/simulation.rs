//! The simulation: a history of states advanced one tick at a time.

use vstd::prelude::*;

use crate::actors::player_actor::{next_action, player_tick, rest_of};
use crate::actors::{first_index, lemma_first_index, lemma_first_index_none, Action, PlayerChannelActor};
use crate::levels::{is_terminal, Level, Outcome, OutcomeView};
use crate::world::{adjacent, duplicate_vec, is_adjacent, ButtonView, DataPointView, Duplicate, Pos, State, StateView};

verus! {

/// Anything that acts on the world once per tick.
pub trait Actor {
    /// What the actor needs of itself and of the state to act.
    spec fn ready(&self, state: StateView) -> bool;

    /// The state the actor turns `state` into.
    spec fn acted(&self, state: StateView) -> StateView;

    fn apply(&mut self, state: State) -> (r: State)
        requires
            old(self).ready(state@),
        ensures
            r@ == old(self).acted(state@),
    ;
}

pub open spec fn point_next_to(p: Pos) -> spec_fn(DataPointView) -> bool {
    |d: DataPointView| adjacent(p, d.pos)
}

pub open spec fn button_next_to(p: Pos) -> spec_fn(ButtonView) -> bool {
    |b: ButtonView| adjacent(p, b.pos)
}

/// Returns the index of the first data point adjacent to the given
/// position, or None if there is none.
pub fn get_adjacent_terminal(state: &State, pos: &Pos) -> (r: Option<usize>)
    ensures
        match r {
            Some(i) => i < state@.data_points.len() && first_index(state@.data_points, point_next_to(*pos))
                == Some(i as int),
            None => first_index(state@.data_points, point_next_to(*pos)) == None::<int>,
        },
{
    let mut i: usize = 0;
    while i < state.data_points.len()
        invariant
            i <= state.data_points.len(),
            forall|j: int| 0 <= j < i ==> !point_next_to(*pos)(#[trigger] state@.data_points[j]),
        decreases state.data_points.len() - i,
    {
        if is_adjacent(pos, &state.data_points[i].pos) {
            proof {
                lemma_first_index(state@.data_points, point_next_to(*pos), i as int);
            }
            return Some(i);
        }
        i += 1;
    }
    proof {
        lemma_first_index_none(state@.data_points, point_next_to(*pos));
    }
    None
}

/// Returns the index of the first button adjacent to the given position, or
/// None if there is none.
pub fn get_adjacent_button(state: &State, pos: &Pos) -> (r: Option<usize>)
    ensures
        match r {
            Some(i) => i < state@.buttons.len() && first_index(state@.buttons, button_next_to(*pos))
                == Some(i as int),
            None => first_index(state@.buttons, button_next_to(*pos)) == None::<int>,
        },
{
    let mut i: usize = 0;
    while i < state.buttons.len()
        invariant
            i <= state.buttons.len(),
            forall|j: int| 0 <= j < i ==> !button_next_to(*pos)(#[trigger] state@.buttons[j]),
        decreases state.buttons.len() - i,
    {
        if is_adjacent(pos, &state.buttons[i].pos) {
            proof {
                lemma_first_index(state@.buttons, button_next_to(*pos), i as int);
            }
            return Some(i);
        }
        i += 1;
    }
    proof {
        lemma_first_index_none(state@.buttons, button_next_to(*pos));
    }
    None
}

/// What a simulation holds, seen from outside: every state so far, oldest
/// first; the player's actions not consumed yet; and the last outcome.
pub struct SimView {
    pub history: Seq<StateView>,
    pub pending: Seq<Action>,
    pub outcome: OutcomeView,
}

/// The outcome kept after a tick that ended neither in success nor in
/// failure: once a check has reported no objective, that is kept.
pub open spec fn carried_outcome(
    prev: OutcomeView,
    first: OutcomeView,
    second: OutcomeView,
) -> OutcomeView {
    if first is NoObjective || second is NoObjective {
        OutcomeView::NoObjective
    } else {
        prev
    }
}

/// One step of a simulation of `level`, and what the step returns. A run
/// that has ended stays as it is. Otherwise the player acts; if that decides
/// the run, the level's other actors do not act in this tick; else they act
/// and the outcome is checked again. Every step that runs appends exactly one
/// state.
pub open spec fn sim_step<L: Level>(v: SimView, level: L) -> (SimView, OutcomeView) {
    if is_terminal(v.outcome) {
        (v, v.outcome)
    } else {
        let s1 = player_tick(v.history.last(), next_action(v.pending), level.spec_bounds());
        let q = rest_of(v.pending);
        let o1 = level.win_outcome(s1);
        if is_terminal(o1) {
            (SimView { history: v.history.push(s1), pending: q, outcome: o1 }, o1)
        } else {
            let s2 = level.world_step(s1);
            let o2 = level.win_outcome(s2);
            if is_terminal(o2) {
                (SimView { history: v.history.push(s2), pending: q, outcome: o2 }, o2)
            } else {
                let o = carried_outcome(v.outcome, o1, o2);
                (SimView { history: v.history.push(s2), pending: q, outcome: o }, o)
            }
        }
    }
}

/// Once a step has ended the run, every later step returns that same
/// outcome and leaves the simulation, its history included, as it is.
pub proof fn lemma_end_is_final<L: Level>(v: SimView, level: L)
    requires
        is_terminal(sim_step(v, level).1),
    ensures
        sim_step(sim_step(v, level).0, level) == (sim_step(v, level).0, sim_step(v, level).1),
{
}

/// Owns the history of states, the player actor and the level, and advances
/// the world one tick at a time.
pub struct Simulation<L: Level> {
    state_idx: usize,
    states: Vec<State>,
    player_actor: PlayerChannelActor,
    level: L,
    last_outcome: Outcome,
}

impl<L: Level> View for Simulation<L> {
    type V = SimView;

    closed spec fn view(&self) -> SimView {
        SimView {
            history: self.states@.map_values(|s: State| s@),
            pending: self.player_actor.pending(),
            outcome: self.last_outcome@,
        }
    }
}

impl<L: Level> Simulation<L> {
    /// The level being played.
    pub closed spec fn level(&self) -> L {
        self.level
    }

    pub closed spec fn wf(&self) -> bool {
        &&& self.states.len() >= 1
        &&& self.state_idx == self.states.len() - 1
        &&& forall|i: int| 0 <= i < self.states.len() ==> (#[trigger] self.states@[i])@.wf()
        &&& self.player_actor.wf()
        &&& self.player_actor.spec_bounds() == self.level.spec_bounds()
    }

    /// A fresh run of the level's first initial state.
    pub fn new(player_actor: PlayerChannelActor, level: L) -> (r: Simulation<L>)
        ensures
            r.wf(),
            r.level() == level,
            r@.history == seq![level.spec_initial_states()[0]],
            r@.history[0].wf(),
            r@.pending == player_actor.pending(),
            r@.outcome == OutcomeView::Continue,
    {
        let mut player_actor = player_actor;
        let bounds = level.bounds();
        player_actor.set_bounds(bounds);
        let mut initial = level.initial_states();
        let first = initial.swap_remove(0);
        let mut states: Vec<State> = Vec::new();
        states.push(first);
        let r = Simulation {
            state_idx: 0,
            states,
            player_actor,
            level,
            last_outcome: Outcome::Continue,
        };
        assert(r@.history =~= seq![first@]);
        r
    }

    /// Loads the given level and starts over from its initial state number
    /// `seed`. Pending actions are kept.
    pub fn load_level(&mut self, level: L, seed: usize)
        requires
            seed < level.spec_initial_states().len(),
        ensures
            final(self).wf(),
            final(self).level() == level,
            final(self)@.history == seq![level.spec_initial_states()[seed as int]],
            final(self)@.history[0].wf(),
            final(self)@.pending == old(self)@.pending,
            final(self)@.outcome == OutcomeView::Continue,
    {
        let bounds = level.bounds();
        self.player_actor.set_bounds(bounds);
        let mut initial = level.initial_states();
        let chosen = initial.swap_remove(seed);
        self.level = level;
        self.state_idx = 0;
        self.states = Vec::new();
        self.states.push(chosen);
        self.last_outcome = Outcome::Continue;
        assert(self@.history =~= seq![chosen@]);
    }

    /// Starts the current level over from its first initial state.
    pub fn reset(&mut self)
        requires
            old(self).wf(),
        ensures
            final(self).wf(),
            final(self).level() == old(self).level(),
            final(self)@.history == seq![old(self).level().spec_initial_states()[0]],
            final(self)@.history[0].wf(),
            final(self)@.pending == old(self)@.pending,
            final(self)@.outcome == OutcomeView::Continue,
    {
        let mut initial = self.level.initial_states();
        let chosen = initial.swap_remove(0);
        self.state_idx = 0;
        self.states = Vec::new();
        self.states.push(chosen);
        self.last_outcome = Outcome::Continue;
        assert(self@.history =~= seq![chosen@]);
    }

    /// A copy of the latest state.
    pub fn curr_state(&self) -> (r: State)
        requires
            self.wf(),
        ensures
            r@ == self@.history.last(),
            r@.wf(),
    {
        self.states[self.state_idx].duplicate()
    }

    /// A copy of every state so far, oldest first.
    pub fn get_history(&self) -> (r: Vec<State>)
        ensures
            r@.map_values(|s: State| s@) == self@.history,
    {
        let r = duplicate_vec(&self.states);
        assert(r@.map_values(|s: State| s@) =~= self@.history);
        r
    }

    pub fn last_outcome(&self) -> (r: Outcome)
        ensures
            r@ == self@.outcome,
    {
        self.last_outcome.clone()
    }

    /// Queues an action for the player; the next step consumes it.
    pub fn send_action(&mut self, action: Action)
        requires
            old(self).wf(),
        ensures
            final(self).wf(),
            final(self).level() == old(self).level(),
            final(self)@ == (SimView { pending: old(self)@.pending.push(action), ..old(self)@ }),
    {
        self.player_actor.send(action);
    }

    /// Drops every pending action.
    pub fn clear_actions(&mut self)
        requires
            old(self).wf(),
        ensures
            final(self).wf(),
            final(self).level() == old(self).level(),
            final(self)@ == (SimView { pending: Seq::empty(), ..old(self)@ }),
    {
        self.player_actor.clear();
    }

    fn record(&mut self, state: State, outcome: &Outcome)
        requires
            old(self).wf(),
            state@.wf(),
        ensures
            final(self).wf(),
            final(self).level() == old(self).level(),
            final(self)@ == (SimView {
                history: old(self)@.history.push(state@),
                pending: old(self)@.pending,
                outcome: outcome@,
            }),
    {
        let ghost before = self@.history;
        self.states.push(state);
        self.state_idx = self.state_idx + 1;
        self.last_outcome = outcome.clone();
        assert(self@.history =~= before.push(state@));
    }

    /// Computes the next state from the latest one and appends it, unless
    /// the run has already ended. Returns the outcome.
    pub fn step_forward(&mut self) -> (r: Outcome)
        requires
            old(self).wf(),
        ensures
            final(self).wf(),
            final(self).level() == old(self).level(),
            (final(self)@, r@) == sim_step(old(self)@, old(self).level()),
    {
        // Once the player has won or lost, no step is taken.
        if self.last_outcome.is_terminal() {
            return self.last_outcome.clone();
        }
        let ghost v = self@;
        // 1. The player acts first, on its own.
        let next_state = self.curr_state();
        let next_state = self.player_actor.apply(next_state);
        // 2. Its action may decide the run.
        let outcome = self.level.check_win(&next_state);
        if outcome.is_terminal() {
            self.record(next_state, &outcome);
            return outcome;
        }
        let first_no_objective = match outcome {
            Outcome::NoObjective => true,
            _ => false,
        };
        // 3. Then the level's other actors.
        let next_state = self.level.apply_actors(next_state);
        // 4. And the outcome is checked again.
        let outcome = self.level.check_win(&next_state);
        if outcome.is_terminal() {
            self.record(next_state, &outcome);
            return outcome;
        }
        let kept = match outcome {
            Outcome::NoObjective => Outcome::NoObjective,
            _ => if first_no_objective {
                Outcome::NoObjective
            } else {
                self.last_outcome.clone()
            },
        };
        self.record(next_state, &kept);
        kept
    }
}

} // verus!
