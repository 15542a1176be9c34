//! A builder for states.

use vstd::prelude::*;

use crate::world::{
    empty_world, DataPoint, Duplicate, EnergyCell, Enemy, Goal, Obstacle, Player, State, StateView, Telepad,
};

verus! {

/// Builds a state through chained calls; for tests and for the initial
/// states of levels.
#[derive(Clone)]
pub struct StateMaker {
    state: State,
}

impl StateMaker {
    /// The state built so far.
    pub closed spec fn spec_state(&self) -> StateView {
        self.state@
    }

    /// Starts from an empty world, as `State::new` makes it.
    pub fn new() -> (r: StateMaker)
        ensures
            r.spec_state() == empty_world(),
    {
        let state = State::new();
        StateMaker { state }
    }

    pub fn build(&self) -> (r: State)
        ensures
            r@ == self.spec_state(),
    {
        self.state.duplicate()
    }

    pub fn with_player(&mut self, player: Player) -> (r: &mut StateMaker)
        ensures
            r.spec_state() == (StateView { player: player@, ..old(self).spec_state() }),
            *final(self) == *final(r),
    {
        self.state.player = player;
        self
    }

    pub fn with_obstacles(&mut self, obstacles: Vec<Obstacle>) -> (r: &mut StateMaker)
        ensures
            r.spec_state() == (StateView { obstacles: obstacles@, ..old(self).spec_state() }),
            *final(self) == *final(r),
    {
        self.state.obstacles = obstacles;
        self
    }

    pub fn with_goals(&mut self, goals: Vec<Goal>) -> (r: &mut StateMaker)
        ensures
            r.spec_state() == (StateView { goals: goals@, ..old(self).spec_state() }),
            *final(self) == *final(r),
    {
        self.state.goals = goals;
        self
    }

    pub fn with_energy_cells(&mut self, energy_cells: Vec<EnergyCell>) -> (r: &mut StateMaker)
        ensures
            r.spec_state() == (StateView { energy_cells: energy_cells@, ..old(self).spec_state() }),
            *final(self) == *final(r),
    {
        self.state.energy_cells = energy_cells;
        self
    }

    pub fn with_data_points(&mut self, data_points: Vec<DataPoint>) -> (r: &mut StateMaker)
        ensures
            r.spec_state() == (StateView {
                data_points: data_points@.map_values(|d: DataPoint| d@),
                ..old(self).spec_state()
            }),
            *final(self) == *final(r),
    {
        self.state.data_points = data_points;
        self
    }

    pub fn with_enemies(&mut self, enemies: Vec<Enemy>) -> (r: &mut StateMaker)
        ensures
            r.spec_state() == (StateView { enemies: enemies@, ..old(self).spec_state() }),
            *final(self) == *final(r),
    {
        self.state.enemies = enemies;
        self
    }

    pub fn with_telepads(&mut self, telepads: Vec<Telepad>) -> (r: &mut StateMaker)
        ensures
            r.spec_state() == (StateView { telepads: telepads@, ..old(self).spec_state() }),
            *final(self) == *final(r),
    {
        self.state.telepads = telepads;
        self
    }
}

} // verus!
