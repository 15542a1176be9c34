//! Levels: starting states, bounds, other actors, and when a run is won or
//! lost.

use vstd::prelude::*;

use crate::actors::Bounds;
use crate::constants::{ERR_DESTROYED_BY_ENEMY, ERR_OUT_OF_ENERGY, MAX_ENERGY};
use crate::world::{
    cell, empty_world, interior, EnemyAnimState, lemma_uncollected_bounded, new_player, EnergyCell, Enemy, Goal,
    Obstacle, Orientation, Player, PlayerView, Pos, State, StateView,
};

pub mod buttons_part_one;
pub mod gate_and_terminal_two;
pub mod loop_the_loop;
pub mod loops_part_two;
pub mod math_expressions;

verus! {

/// How a run stands after a tick.
#[derive(PartialEq, Debug)]
pub enum Outcome {
    Continue,
    Success,
    Failure(String),
    /// The level has nothing to win; the run goes on.
    NoObjective,
}

pub enum OutcomeView {
    Continue,
    Success,
    Failure(Seq<char>),
    NoObjective,
}

impl View for Outcome {
    type V = OutcomeView;

    open spec fn view(&self) -> OutcomeView {
        match self {
            Outcome::Continue => OutcomeView::Continue,
            Outcome::Success => OutcomeView::Success,
            Outcome::Failure(msg) => OutcomeView::Failure(msg@),
            Outcome::NoObjective => OutcomeView::NoObjective,
        }
    }
}

impl Clone for Outcome {
    fn clone(&self) -> (r: Outcome)
        ensures
            r@ == self@,
    {
        match self {
            Outcome::Continue => Outcome::Continue,
            Outcome::Success => Outcome::Success,
            Outcome::Failure(msg) => Outcome::Failure(msg.clone()),
            Outcome::NoObjective => Outcome::NoObjective,
        }
    }
}

/// Success and failure end a run.
pub open spec fn is_terminal(o: OutcomeView) -> bool {
    o is Success || o is Failure
}

impl Outcome {
    pub fn is_terminal(&self) -> (r: bool)
        ensures
            r == is_terminal(self@),
    {
        match self {
            Outcome::Success => true,
            Outcome::Failure(_) => true,
            _ => false,
        }
    }
}

/// A level: where the player starts, where it may move, what else acts on
/// the world, and when the run is won or lost.
pub trait Level {
    /// The states a run of the level may start from.
    spec fn spec_initial_states(&self) -> Seq<StateView>;

    spec fn spec_bounds(&self) -> Bounds;

    /// The outcome of a state.
    spec fn win_outcome(&self, state: StateView) -> OutcomeView;

    /// What the level's other actors, in order, make of a state.
    spec fn world_step(&self, state: StateView) -> StateView;

    fn name(&self) -> &'static str;

    fn objective(&self) -> &'static str;

    fn initial_code(&self) -> &'static str;

    fn initial_states(&self) -> (r: Vec<State>)
        ensures
            r@.map_values(|s: State| s@) == self.spec_initial_states(),
            r.len() >= 1,
            forall|i: int| 0 <= i < r.len() ==> (#[trigger] r@[i])@.wf(),
    ;

    fn bounds(&self) -> (r: Bounds)
        ensures
            r == self.spec_bounds(),
            r.wf(),
    ;

    /// Applies the level's other actors, in order, after the player.
    fn apply_actors(&self, state: State) -> (r: State)
        requires
            state@.wf(),
        ensures
            r@ == self.world_step(state@),
            r@.wf(),
    ;

    fn check_win(&self, state: &State) -> (r: Outcome)
        ensures
            r@ == self.win_outcome(state@),
    ;
}

pub open spec fn at_goal(s: StateView) -> bool {
    exists|i: int| 0 <= i < s.goals.len() && (#[trigger] s.goals[i]).pos == s.player.pos
}

/// Reaching a goal wins; running out of energy first loses.
pub open spec fn std_outcome(s: StateView) -> OutcomeView {
    if at_goal(s) {
        OutcomeView::Success
    } else if s.player.energy == 0 {
        OutcomeView::Failure(ERR_OUT_OF_ENERGY@)
    } else {
        OutcomeView::Continue
    }
}

pub fn is_at_goal(state: &State) -> (r: bool)
    ensures
        r == at_goal(state@),
{
    let mut i: usize = 0;
    while i < state.goals.len()
        invariant
            i <= state.goals.len(),
            forall|j: int| 0 <= j < i ==> (#[trigger] state@.goals[j]).pos != state@.player.pos,
        decreases state.goals.len() - i,
    {
        let g = state.goals[i];
        if g.pos.x == state.player.pos.x && g.pos.y == state.player.pos.y {
            assert(state@.goals[i as int].pos == state@.player.pos);
            return true;
        }
        i += 1;
    }
    false
}

pub fn std_check_win(state: &State) -> (r: Outcome)
    ensures
        r@ == std_outcome(state@),
{
    if is_at_goal(state) {
        Outcome::Success
    } else if state.player.energy == 0 {
        Outcome::Failure(ERR_OUT_OF_ENERGY.to_owned())
    } else {
        Outcome::Continue
    }
}

pub fn no_objective_check_win(state: &State) -> (r: Outcome)
    ensures
        r@ == OutcomeView::NoObjective,
{
    Outcome::NoObjective
}

pub open spec fn destroyed_by_enemy(s: StateView) -> bool {
    exists|i: int| 0 <= i < s.enemies.len() && (#[trigger] s.enemies[i]).pos == s.player.pos
}

/// Whether an enemy stands on the player's cell.
pub fn is_destroyed_by_enemy(state: &State) -> (r: bool)
    ensures
        r == destroyed_by_enemy(state@),
{
    let mut i: usize = 0;
    while i < state.enemies.len()
        invariant
            i <= state.enemies.len(),
            forall|j: int| 0 <= j < i ==> (#[trigger] state@.enemies[j]).pos != state@.player.pos,
        decreases state.enemies.len() - i,
    {
        let e = state.enemies[i];
        if e.pos.x == state.player.pos.x && e.pos.y == state.player.pos.y {
            assert(state@.enemies[i as int].pos == state@.player.pos);
            return true;
        }
        i += 1;
    }
    false
}

/// Obstacles at the given cells, in order.
pub open spec fn obstacle_cells(cells: Seq<(u32, u32)>) -> Seq<Obstacle> {
    cells.map_values(|c: (u32, u32)| Obstacle { pos: cell(c.0, c.1) })
}

pub fn obstacles_at(cells: Vec<(u32, u32)>) -> (r: Vec<Obstacle>)
    ensures
        r@ == obstacle_cells(cells@),
{
    let mut r: Vec<Obstacle> = Vec::new();
    let mut i: usize = 0;
    while i < cells.len()
        invariant
            i <= cells@.len(),
            r@ == obstacle_cells(cells@.subrange(0, i as int)),
        decreases cells@.len() - i,
    {
        let (x, y) = cells[i];
        r.push(Obstacle::new(x, y));
        i += 1;
        assert(r@ =~= obstacle_cells(cells@.subrange(0, i as int)));
    }
    assert(cells@.subrange(0, i as int) =~= cells@);
    r
}

/// A world with the given player, goals, energy cells, enemies and
/// obstacles, and nothing else.
pub open spec fn start_view(
    player: PlayerView,
    goals: Seq<Goal>,
    energy_cells: Seq<EnergyCell>,
    enemies: Seq<Enemy>,
    obstacles: Seq<Obstacle>,
) -> StateView {
    StateView { player, goals, energy_cells, enemies, obstacles, ..empty_world() }
}

/// A level's starting state: the player and what it meets.
pub fn level_state(
    player: Player,
    goals: Vec<Goal>,
    energy_cells: Vec<EnergyCell>,
    enemies: Vec<Enemy>,
    obstacles: Vec<Obstacle>,
) -> (r: State)
    requires
        interior(player.pos),
        player.energy + player.total_energy_used + 10 * energy_cells@.len() <= u32::MAX,
    ensures
        r@ == start_view(player@, goals@, energy_cells@, enemies@, obstacles@),
        r@.wf(),
{
    let mut state = State::new();
    state.player = player;
    state.goals = goals;
    state.energy_cells = energy_cells;
    state.enemies = enemies;
    state.obstacles = obstacles;
    proof {
        lemma_uncollected_bounded(state@.energy_cells);
    }
    state
}

pub open spec fn grid_bounds() -> Bounds {
    Bounds { min_x: 0, max_x: 11, min_y: 0, max_y: 7 }
}

/// Walk to the goal inside a small enclosure.
#[derive(Copy, Clone)]
pub struct Level1 {}

impl Level for Level1 {
    open spec fn spec_initial_states(&self) -> Seq<StateView> {
        seq![start_view(
            new_player(0, 0, MAX_ENERGY, Orientation::Right),
            seq![Goal { pos: Pos { x: 3, y: 3 } }],
            seq![],
            seq![],
            obstacle_cells(seq![
                (4, 0),
                (4, 1),
                (4, 2),
                (4, 3),
                (4, 4),
                (0, 4),
                (1, 4),
                (2, 4),
                (3, 4),
            ]),
        )]
    }

    open spec fn spec_bounds(&self) -> Bounds {
        grid_bounds()
    }

    open spec fn win_outcome(&self, state: StateView) -> OutcomeView {
        std_outcome(state)
    }

    open spec fn world_step(&self, state: StateView) -> StateView {
        state
    }

    fn name(&self) -> &'static str {
        "First Steps"
    }

    fn objective(&self) -> &'static str {
        "Move the drone (🤖) to the goal (🏁)."
    }

    fn initial_code(&self) -> &'static str {
        r#"// Every line that starts with two slashes "//" is called a
// \"comment\". Comments don't affect the drone at all; they are
// just little notes to help you understand the code. You can
// add your own comments too!
//
// The code below moves the drone, but it's not going to the
// right place. Try changing the code to see what happens.

move_right(1);
move_down(2);
"#
    }

    fn initial_states(&self) -> (r: Vec<State>) {
        let state = level_state(
            Player::new(0, 0, MAX_ENERGY, Orientation::Right),
            vec![Goal { pos: Pos::new(3, 3) }],
            vec![],
            vec![],
            obstacles_at(vec![
                (4, 0),
                (4, 1),
                (4, 2),
                (4, 3),
                (4, 4),
                (0, 4),
                (1, 4),
                (2, 4),
                (3, 4),
            ]),
        );
        assert(state@.obstacles =~= self.spec_initial_states()[0].obstacles);
        assert(state@.goals =~= self.spec_initial_states()[0].goals);
        assert(state@.energy_cells =~= self.spec_initial_states()[0].energy_cells);
        assert(state@.enemies =~= self.spec_initial_states()[0].enemies);
        let r = vec![state];
        assert(r@.map_values(|s: State| s@) =~~= self.spec_initial_states());
        r
    }

    fn bounds(&self) -> (r: Bounds) {
        Bounds::default()
    }

    fn apply_actors(&self, state: State) -> (r: State) {
        state
    }

    fn check_win(&self, state: &State) -> (r: Outcome) {
        std_check_win(state)
    }
}

/// Pick up energy before heading to the goal.
#[derive(Copy, Clone)]
pub struct Level2 {}

impl Level for Level2 {
    open spec fn spec_initial_states(&self) -> Seq<StateView> {
        seq![start_view(
            new_player(0, 0, 5, Orientation::Right),
            seq![Goal { pos: Pos { x: 4, y: 4 } }],
            seq![EnergyCell { pos: cell(0, 5), collected: false }],
            seq![],
            obstacle_cells(seq![
                (1, 1),
                (1, 2),
                (1, 3),
                (2, 1),
                (2, 2),
                (2, 3),
                (3, 1),
                (3, 2),
                (3, 3),
                (5, 0),
                (5, 1),
                (5, 2),
                (5, 3),
                (5, 4),
                (5, 5),
                (4, 5),
                (3, 5),
                (2, 5),
                (1, 5),
                (1, 6),
                (1, 7),
            ]),
        )]
    }

    open spec fn spec_bounds(&self) -> Bounds {
        grid_bounds()
    }

    open spec fn win_outcome(&self, state: StateView) -> OutcomeView {
        std_outcome(state)
    }

    open spec fn world_step(&self, state: StateView) -> StateView {
        state
    }

    fn name(&self) -> &'static str {
        "Fuel Up"
    }

    fn objective(&self) -> &'static str {
        "First move the drone (🤖) to collect the fuel (⛽️), then move to the goal (🏁)."
    }

    fn initial_code(&self) -> &'static str {
        r#"// If you try moving straight to the goal, you'll run out of fuel
// first. Try collecting some fuel before moving to the goal.

move_down(4);
move_right(4);
"#
    }

    fn initial_states(&self) -> (r: Vec<State>) {
        let state = level_state(
            Player::new(0, 0, 5, Orientation::Right),
            vec![Goal { pos: Pos::new(4, 4) }],
            vec![EnergyCell::new(0, 5)],
            vec![],
            obstacles_at(vec![
                (1, 1),
                (1, 2),
                (1, 3),
                (2, 1),
                (2, 2),
                (2, 3),
                (3, 1),
                (3, 2),
                (3, 3),
                (5, 0),
                (5, 1),
                (5, 2),
                (5, 3),
                (5, 4),
                (5, 5),
                (4, 5),
                (3, 5),
                (2, 5),
                (1, 5),
                (1, 6),
                (1, 7),
            ]),
        );
        assert(state@.obstacles =~= self.spec_initial_states()[0].obstacles);
        assert(state@.goals =~= self.spec_initial_states()[0].goals);
        assert(state@.energy_cells =~= self.spec_initial_states()[0].energy_cells);
        assert(state@.enemies =~= self.spec_initial_states()[0].enemies);
        let r = vec![state];
        assert(r@.map_values(|s: State| s@) =~~= self.spec_initial_states());
        r
    }

    fn bounds(&self) -> (r: Bounds) {
        Bounds::default()
    }

    fn apply_actors(&self, state: State) -> (r: State) {
        state
    }

    fn check_win(&self, state: &State) -> (r: Outcome) {
        std_check_win(state)
    }
}

/// Climb a staircase of obstacles with a loop.
#[derive(Copy, Clone)]
pub struct Level3 {}

impl Level for Level3 {
    open spec fn spec_initial_states(&self) -> Seq<StateView> {
        seq![start_view(
            new_player(0, 7, 5, Orientation::Right),
            seq![Goal { pos: Pos { x: 8, y: 0 } }],
            seq![EnergyCell { pos: cell(3, 5), collected: false }],
            seq![],
            obstacle_cells(seq![
                (0, 6),
                (0, 5),
                (1, 5),
                (1, 4),
                (2, 4),
                (2, 3),
                (3, 3),
                (3, 2),
                (4, 2),
                (4, 1),
                (5, 1),
                (5, 0),
                (6, 0),
                (2, 7),
                (3, 7),
                (3, 6),
                (4, 6),
                (4, 5),
                (5, 5),
                (5, 4),
                (6, 4),
                (6, 3),
                (7, 3),
                (7, 2),
                (8, 2),
                (8, 1),
                (9, 1),
                (9, 0),
            ]),
        )]
    }

    open spec fn spec_bounds(&self) -> Bounds {
        grid_bounds()
    }

    open spec fn win_outcome(&self, state: StateView) -> OutcomeView {
        std_outcome(state)
    }

    open spec fn world_step(&self, state: StateView) -> StateView {
        state
    }

    fn name(&self) -> &'static str {
        "Loop the loop"
    }

    fn objective(&self) -> &'static str {
        "Move the drone (🤖) to the goal (🏁) using a loop."
    }

    fn initial_code(&self) -> &'static str {
        r#"// You can use the "loop" keyword to perform repeated actions.
// Everything inside the curly braces "{" and "}" will be
// repeated. (Don't worry, the loop will stop running if you
// run out of fuel or reach the objective).

loop {
  move_right(1);
  // Add a line of code here.
}
"#
    }

    fn initial_states(&self) -> (r: Vec<State>) {
        let state = level_state(
            Player::new(0, 7, 5, Orientation::Right),
            vec![Goal { pos: Pos::new(8, 0) }],
            vec![EnergyCell::new(3, 5)],
            vec![],
            obstacles_at(vec![
                (0, 6),
                (0, 5),
                (1, 5),
                (1, 4),
                (2, 4),
                (2, 3),
                (3, 3),
                (3, 2),
                (4, 2),
                (4, 1),
                (5, 1),
                (5, 0),
                (6, 0),
                (2, 7),
                (3, 7),
                (3, 6),
                (4, 6),
                (4, 5),
                (5, 5),
                (5, 4),
                (6, 4),
                (6, 3),
                (7, 3),
                (7, 2),
                (8, 2),
                (8, 1),
                (9, 1),
                (9, 0),
            ]),
        );
        assert(state@.obstacles =~= self.spec_initial_states()[0].obstacles);
        assert(state@.goals =~= self.spec_initial_states()[0].goals);
        assert(state@.energy_cells =~= self.spec_initial_states()[0].energy_cells);
        assert(state@.enemies =~= self.spec_initial_states()[0].enemies);
        let r = vec![state];
        assert(r@.map_values(|s: State| s@) =~~= self.spec_initial_states());
        r
    }

    fn bounds(&self) -> (r: Bounds) {
        Bounds::default()
    }

    fn apply_actors(&self, state: State) -> (r: State) {
        state
    }

    fn check_win(&self, state: &State) -> (r: Outcome) {
        std_check_win(state)
    }
}

/// Reach the goal while avoiding the enemy, which keeps its place.
#[derive(Copy, Clone)]
pub struct Level4 {}

impl Level for Level4 {
    open spec fn spec_initial_states(&self) -> Seq<StateView> {
        seq![start_view(
            new_player(11, 0, 8, Orientation::Right),
            seq![Goal { pos: Pos { x: 9, y: 5 } }],
            seq![EnergyCell { pos: cell(4, 1), collected: false }, EnergyCell { pos: cell(0, 5), collected: false }],
            seq![Enemy { pos: cell(9, 7), anim_state: EnemyAnimState::Idle }],
            obstacle_cells(seq![
                (8, 1),
                (8, 2),
                (8, 3),
                (8, 4),
                (7, 4),
                (6, 4),
                (8, 6),
                (7, 6),
                (6, 6),
                (4, 6),
                (3, 6),
                (7, 1),
                (6, 1),
                (5, 1),
                (4, 2),
                (3, 1),
                (2, 1),
                (5, 4),
                (4, 4),
                (1, 1),
                (1, 2),
                (1, 3),
                (1, 4),
                (1, 6),
                (1, 7),
                (10, 1),
                (10, 2),
                (10, 3),
                (10, 4),
                (10, 5),
                (10, 6),
                (2, 4),
                (3, 4),
                (2, 6),
                (5, 6),
                (11, 1),
                (3, 2),
                (5, 2),
                (8, 7),
                (10, 7),
            ]),
        )]
    }

    open spec fn spec_bounds(&self) -> Bounds {
        grid_bounds()
    }

    open spec fn win_outcome(&self, state: StateView) -> OutcomeView {
        if at_goal(state) {
            OutcomeView::Success
        } else if destroyed_by_enemy(state) {
            OutcomeView::Failure(ERR_DESTROYED_BY_ENEMY@)
        } else if state.player.energy == 0 {
            OutcomeView::Failure(ERR_OUT_OF_ENERGY@)
        } else {
            OutcomeView::Continue
        }
    }

    open spec fn world_step(&self, state: StateView) -> StateView {
        state
    }

    fn name(&self) -> &'static str {
        "What's that Buzzing Sound?"
    }

    fn objective(&self) -> &'static str {
        "Move the drone (🤖) to the goal (🏁), but watch out for bugs (🪲)!"
    }

    fn initial_code(&self) -> &'static str {
        r"// If you try going straight for the goal, you might run
// into trouble. Can you find a different path?

move_left(2);
move_down(5);
"
    }

    fn initial_states(&self) -> (r: Vec<State>) {
        let state = level_state(
            Player::new(11, 0, 8, Orientation::Right),
            vec![Goal { pos: Pos::new(9, 5) }],
            vec![EnergyCell::new(4, 1), EnergyCell::new(0, 5)],
            vec![Enemy::new(9, 7)],
            obstacles_at(vec![
                (8, 1),
                (8, 2),
                (8, 3),
                (8, 4),
                (7, 4),
                (6, 4),
                (8, 6),
                (7, 6),
                (6, 6),
                (4, 6),
                (3, 6),
                (7, 1),
                (6, 1),
                (5, 1),
                (4, 2),
                (3, 1),
                (2, 1),
                (5, 4),
                (4, 4),
                (1, 1),
                (1, 2),
                (1, 3),
                (1, 4),
                (1, 6),
                (1, 7),
                (10, 1),
                (10, 2),
                (10, 3),
                (10, 4),
                (10, 5),
                (10, 6),
                (2, 4),
                (3, 4),
                (2, 6),
                (5, 6),
                (11, 1),
                (3, 2),
                (5, 2),
                (8, 7),
                (10, 7),
            ]),
        );
        assert(state@.obstacles =~= self.spec_initial_states()[0].obstacles);
        assert(state@.goals =~= self.spec_initial_states()[0].goals);
        assert(state@.energy_cells =~= self.spec_initial_states()[0].energy_cells);
        assert(state@.enemies =~= self.spec_initial_states()[0].enemies);
        let r = vec![state];
        assert(r@.map_values(|s: State| s@) =~~= self.spec_initial_states());
        r
    }

    fn bounds(&self) -> (r: Bounds) {
        Bounds::default()
    }

    fn apply_actors(&self, state: State) -> (r: State) {
        state
    }

    fn check_win(&self, state: &State) -> (r: Outcome) {
        if is_at_goal(state) {
            Outcome::Success
        } else if is_destroyed_by_enemy(state) {
            Outcome::Failure(ERR_DESTROYED_BY_ENEMY.to_owned())
        } else if state.player.energy == 0 {
            Outcome::Failure(ERR_OUT_OF_ENERGY.to_owned())
        } else {
            Outcome::Continue
        }
    }
}

/// Collect the energy cell.
#[derive(Copy, Clone)]
pub struct Level0 {}

impl Level for Level0 {
    open spec fn spec_initial_states(&self) -> Seq<StateView> {
        seq![start_view(
            new_player(0, 0, MAX_ENERGY, Orientation::Right),
            seq![],
            seq![EnergyCell { pos: cell(3, 3), collected: false }],
            seq![],
            obstacle_cells(seq![]),
        )]
    }

    open spec fn spec_bounds(&self) -> Bounds {
        grid_bounds()
    }

    open spec fn win_outcome(&self, state: StateView) -> OutcomeView {
        if state.energy_cells.len() > 0 && state.player.pos == state.energy_cells[0].pos {
            OutcomeView::Success
        } else {
            OutcomeView::Continue
        }
    }

    open spec fn world_step(&self, state: StateView) -> StateView {
        state
    }

    fn name(&self) -> &'static str {
        "Fuel Up"
    }

    fn objective(&self) -> &'static str {
        "Move the drone (🤖) to collect the fuel (⛽️)"
    }

    fn initial_code(&self) -> &'static str {
        "// This code moves the drone, but it's not going to the right place.\n// Try changing the code to see what happens?\n\nmove_right(1);\nmove_down(2);\n"
    }

    fn initial_states(&self) -> (r: Vec<State>) {
        let state = level_state(
            Player::new(0, 0, MAX_ENERGY, Orientation::Right),
            vec![],
            vec![EnergyCell::new(3, 3)],
            vec![],
            obstacles_at(vec![]),
        );
        assert(state@.obstacles =~= self.spec_initial_states()[0].obstacles);
        assert(state@.goals =~= self.spec_initial_states()[0].goals);
        assert(state@.energy_cells =~= self.spec_initial_states()[0].energy_cells);
        assert(state@.enemies =~= self.spec_initial_states()[0].enemies);
        let r = vec![state];
        assert(r@.map_values(|s: State| s@) =~~= self.spec_initial_states());
        r
    }

    fn bounds(&self) -> (r: Bounds) {
        Bounds::default()
    }

    fn apply_actors(&self, state: State) -> (r: State) {
        state
    }

    fn check_win(&self, state: &State) -> (r: Outcome) {
        if state.energy_cells.len() > 0 && state.energy_cells[0].pos.x == state.player.pos.x
            && state.energy_cells[0].pos.y == state.player.pos.y {
            Outcome::Success
        } else {
            Outcome::Continue
        }
    }
}

} // verus!
