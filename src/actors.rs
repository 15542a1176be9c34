//! Actions of the player, movement bounds, and the rules on where an actor
//! may move.

use vstd::prelude::*;

use crate::constants::{HEIGHT, WIDTH};
use crate::world::{adjacent, is_adjacent, PasswordGateView, Pos, State, StateView, Telepad};

pub mod player_actor;

pub use player_actor::PlayerChannelActor;

verus! {

#[derive(Clone, Copy, PartialEq, Eq, Structural, Debug)]
pub enum MoveDirection {
    Forward,
    Backward,
}

#[derive(Clone, Copy, PartialEq, Eq, Structural, Debug)]
pub enum TurnDirection {
    Right,
    Left,
}

/// One command of the player, produced by a primitive of the script.
#[derive(Debug)]
pub enum Action {
    Wait,
    Move(MoveDirection),
    Turn(TurnDirection),
    Say(String),
    ReadData,
    PressButton,
}

impl Clone for Action {
    fn clone(&self) -> (r: Action)
        ensures
            r == *self,
    {
        match self {
            Action::Wait => Action::Wait,
            Action::Move(d) => Action::Move(*d),
            Action::Turn(d) => Action::Turn(*d),
            Action::Say(text) => Action::Say(text.clone()),
            Action::ReadData => Action::ReadData,
            Action::PressButton => Action::PressButton,
        }
    }
}

/// The rectangle, bounds included, in which an actor may move.
#[derive(Clone, Copy, PartialEq, Eq, Structural, Debug)]
pub struct Bounds {
    pub min_x: i32,
    pub max_x: i32,
    pub min_y: i32,
    pub max_y: i32,
}

impl Bounds {
    pub fn new(min_x: i32, max_x: i32, min_y: i32, max_y: i32) -> (r: Bounds)
        ensures
            r == (Bounds { min_x, max_x, min_y, max_y }),
    {
        Bounds { min_x, max_x, min_y, max_y }
    }

    /// The whole grid.
    pub fn default() -> (r: Bounds)
        ensures
            r == (Bounds {
                min_x: 0,
                max_x: (WIDTH - 1) as i32,
                min_y: 0,
                max_y: (HEIGHT - 1) as i32,
            }),
            r.wf(),
    {
        Bounds { min_x: 0, max_x: (WIDTH - 1) as i32, min_y: 0, max_y: (HEIGHT - 1) as i32 }
    }

    /// No cell inside the bounds lies on the edge of the representable grid,
    /// so that a player inside can always take one more step.
    pub open spec fn wf(self) -> bool {
        i32::MIN < self.min_x && self.max_x < i32::MAX && i32::MIN < self.min_y && self.max_y
            < i32::MAX
    }
}

/// `i` is the first index of `s` whose item satisfies `f`.
pub open spec fn is_first<T>(s: Seq<T>, f: spec_fn(T) -> bool, i: int) -> bool {
    &&& 0 <= i < s.len()
    &&& f(s[i])
    &&& forall|j: int| 0 <= j < i ==> !f(#[trigger] s[j])
}

/// The first index of `s` whose item satisfies `f`, if any.
pub open spec fn first_index<T>(s: Seq<T>, f: spec_fn(T) -> bool) -> Option<int> {
    if exists|i: int| 0 <= i < s.len() && f(#[trigger] s[i]) {
        Some(choose|i: int| is_first(s, f, i))
    } else {
        None
    }
}

/// A first index found by a scan is the one `first_index` names.
pub proof fn lemma_first_index<T>(s: Seq<T>, f: spec_fn(T) -> bool, i: int)
    requires
        is_first(s, f, i),
    ensures
        first_index(s, f) == Some(i),
{
    assert(f(s[i]));
    let k = choose|k: int| is_first(s, f, k);
    assert(is_first(s, f, k));
    if k < i {
        assert(!f(s[k]));
    } else if i < k {
        assert(!f(s[i]));
    }
}

proof fn lemma_has_first<T>(s: Seq<T>, f: spec_fn(T) -> bool, k: int)
    requires
        0 <= k < s.len(),
        f(s[k]),
    ensures
        exists|i: int| is_first(s, f, i),
    decreases k,
{
    if exists|j: int| 0 <= j < k && f(#[trigger] s[j]) {
        let j = choose|j: int| 0 <= j < k && f(#[trigger] s[j]);
        lemma_has_first(s, f, j);
    } else {
        assert(is_first(s, f, k));
    }
}

/// What `first_index` names, when it names an index, is the first match.
pub proof fn lemma_first_index_is_first<T>(s: Seq<T>, f: spec_fn(T) -> bool)
    ensures
        first_index(s, f) matches Some(i) ==> is_first(s, f, i),
{
    if exists|i: int| 0 <= i < s.len() && f(#[trigger] s[i]) {
        let k = choose|i: int| 0 <= i < s.len() && f(#[trigger] s[i]);
        lemma_has_first(s, f, k);
    }
}

/// A scan that found nothing.
pub proof fn lemma_first_index_none<T>(s: Seq<T>, f: spec_fn(T) -> bool)
    requires
        forall|j: int| 0 <= j < s.len() ==> !f(#[trigger] s[j]),
    ensures
        first_index(s, f) == None::<int>,
{
}

pub open spec fn obstacle_at(s: StateView, p: Pos) -> bool {
    ||| exists|i: int| 0 <= i < s.data_points.len() && (#[trigger] s.data_points[i]).pos == p
    ||| exists|i: int| 0 <= i < s.obstacles.len() && (#[trigger] s.obstacles[i]).pos == p
    ||| exists|i: int| 0 <= i < s.buttons.len() && (#[trigger] s.buttons[i]).pos == p
}

pub open spec fn closed_gate_at(s: StateView, p: Pos) -> bool {
    exists|i: int| 0 <= i < s.gates.len() && (#[trigger] s.gates[i]).pos == p && !s.gates[i].open
}

pub open spec fn closed_password_gate_at(s: StateView, p: Pos) -> bool {
    exists|i: int|
        0 <= i < s.password_gates.len() && (#[trigger] s.password_gates[i]).pos == p
            && !s.password_gates[i].open
}

pub open spec fn outside_bounds(b: Bounds, p: Pos) -> bool {
    p.x > b.max_x || p.y > b.max_y || p.x < b.min_x || p.y < b.min_y
}

/// Whether an actor may move onto `p`.
pub open spec fn valid_destination(s: StateView, b: Bounds, p: Pos) -> bool {
    !obstacle_at(s, p) && !outside_bounds(b, p) && !closed_gate_at(s, p)
        && !closed_password_gate_at(s, p)
}

pub open spec fn starts_at(p: Pos) -> spec_fn(Telepad) -> bool {
    |t: Telepad| t.start_pos == p
}

/// The first telepad whose entry cell is `p`.
pub open spec fn telepad_at(s: StateView, p: Pos) -> Option<Telepad> {
    match first_index(s.telepads, starts_at(p)) {
        Some(i) => Some(s.telepads[i]),
        None => None,
    }
}

/// The indices of the password gates adjacent to `p`, in increasing order.
pub open spec fn lists_adjacent_gates(r: Seq<usize>, gates: Seq<PasswordGateView>, p: Pos) -> bool {
    &&& forall|k: int| 0 <= k < r.len() ==> #[trigger] r[k] < gates.len() && adjacent(p, gates[r[k] as int].pos)
    &&& forall|k: int, m: int| 0 <= k < m < r.len() ==> r[k] < r[m]
    &&& forall|j: int|
        0 <= j < gates.len() && adjacent(p, #[trigger] gates[j].pos) ==> exists|k: int|
            0 <= k < r.len() && r[k] == j
}

/// Data points are obstacles too: they never move and cannot be opened.
/// Buttons cannot be moved either.
pub fn is_obstacle_at(state: &State, pos: &Pos) -> (r: bool)
    ensures
        r == obstacle_at(state@, *pos),
{
    let mut i: usize = 0;
    while i < state.data_points.len()
        invariant
            i <= state.data_points.len(),
            forall|j: int| 0 <= j < i ==> (#[trigger] state@.data_points[j]).pos != *pos,
        decreases state.data_points.len() - i,
    {
        if state.data_points[i].pos.x == pos.x && state.data_points[i].pos.y == pos.y {
            assert(state@.data_points[i as int].pos == *pos);
            return true;
        }
        i += 1;
    }
    let mut i: usize = 0;
    while i < state.obstacles.len()
        invariant
            i <= state.obstacles.len(),
            forall|j: int| 0 <= j < i ==> (#[trigger] state@.obstacles[j]).pos != *pos,
        decreases state.obstacles.len() - i,
    {
        if state.obstacles[i].pos.x == pos.x && state.obstacles[i].pos.y == pos.y {
            assert(state@.obstacles[i as int].pos == *pos);
            return true;
        }
        i += 1;
    }
    let mut i: usize = 0;
    while i < state.buttons.len()
        invariant
            i <= state.buttons.len(),
            forall|j: int| 0 <= j < i ==> (#[trigger] state@.buttons[j]).pos != *pos,
        decreases state.buttons.len() - i,
    {
        if state.buttons[i].pos.x == pos.x && state.buttons[i].pos.y == pos.y {
            assert(state@.buttons[i as int].pos == *pos);
            return true;
        }
        i += 1;
    }
    false
}

pub fn is_closed_gate_at(state: &State, pos: &Pos) -> (r: bool)
    ensures
        r == closed_gate_at(state@, *pos),
{
    let mut i: usize = 0;
    while i < state.gates.len()
        invariant
            i <= state.gates.len(),
            forall|j: int|
                0 <= j < i ==> !((#[trigger] state@.gates[j]).pos == *pos && !state@.gates[j].open),
        decreases state.gates.len() - i,
    {
        let g = state.gates[i];
        if g.pos.x == pos.x && g.pos.y == pos.y && !g.open {
            assert(state@.gates[i as int].pos == *pos);
            return true;
        }
        i += 1;
    }
    false
}

pub fn is_closed_password_gate_at(state: &State, pos: &Pos) -> (r: bool)
    ensures
        r == closed_password_gate_at(state@, *pos),
{
    let mut i: usize = 0;
    while i < state.password_gates.len()
        invariant
            i <= state.password_gates.len(),
            forall|j: int|
                0 <= j < i ==> !((#[trigger] state@.password_gates[j]).pos == *pos
                    && !state@.password_gates[j].open),
        decreases state.password_gates.len() - i,
    {
        let g = &state.password_gates[i];
        if g.pos.x == pos.x && g.pos.y == pos.y && !g.open {
            assert(state@.password_gates[i as int].pos == *pos);
            return true;
        }
        i += 1;
    }
    false
}

pub fn get_telepad_at(state: &State, pos: &Pos) -> (r: Option<Telepad>)
    ensures
        r == telepad_at(state@, *pos),
{
    let mut i: usize = 0;
    while i < state.telepads.len()
        invariant
            i <= state.telepads.len(),
            forall|j: int| 0 <= j < i ==> !starts_at(*pos)(#[trigger] state@.telepads[j]),
        decreases state.telepads.len() - i,
    {
        let t = state.telepads[i];
        if t.start_pos.x == pos.x && t.start_pos.y == pos.y {
            proof {
                lemma_first_index(state@.telepads, starts_at(*pos), i as int);
            }
            return Some(t);
        }
        i += 1;
    }
    proof {
        lemma_first_index_none(state@.telepads, starts_at(*pos));
    }
    None
}

pub fn is_outside_bounds(bounds: &Bounds, pos: &Pos) -> (r: bool)
    ensures
        r == outside_bounds(*bounds, *pos),
{
    pos.x > bounds.max_x || pos.y > bounds.max_y || pos.x < bounds.min_x || pos.y < bounds.min_y
}

/// Returns true if the given position is a valid position for an actor to
/// move to. This applies to anything that moves around the board.
pub fn can_move_to(state: &State, bounds: &Bounds, desired_pos: &Pos) -> (r: bool)
    ensures
        r == valid_destination(state@, *bounds, *desired_pos),
{
    !is_obstacle_at(state, desired_pos) && !is_outside_bounds(bounds, desired_pos)
        && !is_closed_gate_at(state, desired_pos) && !is_closed_password_gate_at(
        state,
        desired_pos,
    )
}

/// Returns the indices of the password gates adjacent to the given position,
/// in increasing order; empty if there is none.
pub fn get_adjacent_password_gates(state: &State, pos: &Pos) -> (r: Vec<usize>)
    ensures
        lists_adjacent_gates(r@, state@.password_gates, *pos),
{
    let mut gate_indexes: Vec<usize> = Vec::new();
    let mut i: usize = 0;
    while i < state.password_gates.len()
        invariant
            i <= state.password_gates.len(),
            forall|k: int|
                0 <= k < gate_indexes.len() ==> #[trigger] gate_indexes@[k] < i && adjacent(
                    *pos,
                    state@.password_gates[gate_indexes@[k] as int].pos,
                ),
            forall|k: int, m: int| 0 <= k < m < gate_indexes.len() ==> gate_indexes@[k] < gate_indexes@[m],
            forall|j: int|
                0 <= j < i && adjacent(*pos, #[trigger] state@.password_gates[j].pos) ==> exists|k: int|
                    0 <= k < gate_indexes.len() && gate_indexes@[k] == j,
        decreases state.password_gates.len() - i,
    {
        if is_adjacent(pos, &state.password_gates[i].pos) {
            let ghost before = gate_indexes@;
            gate_indexes.push(i);
            assert forall|j: int|
                0 <= j <= i && adjacent(*pos, #[trigger] state@.password_gates[j].pos) implies exists|k: int|
                0 <= k < gate_indexes.len() && gate_indexes@[k] == j by {
                if j < i {
                    let k = choose|k: int| 0 <= k < before.len() && before[k] == j;
                    assert(gate_indexes@[k] == j);
                } else {
                    assert(gate_indexes@[before.len() as int] == j);
                }
            }
        }
        i += 1;
    }
    gate_indexes
}

} // verus!
