//! The player actor: how one action changes the world in one tick.

use std::collections::VecDeque;

use vstd::prelude::*;

use crate::actors::{
    can_move_to, first_index, get_adjacent_password_gates, get_telepad_at,
    lemma_first_index, lemma_first_index_is_first, lemma_first_index_none, lists_adjacent_gates,
    closed_gate_at, closed_password_gate_at, obstacle_at, outside_bounds, starts_at, telepad_at,
    valid_destination, Action, Bounds, MoveDirection, TurnDirection,
};
use crate::constants::ENERGY_CELL_AMOUNT;
use crate::simulation::{get_adjacent_button, get_adjacent_terminal, button_next_to, point_next_to, Actor};
use crate::world::{
    adjacent, interior, lemma_uncollected_collect, uncollected, BumpAnimData, ButtonConnection, ButtonView,
    DataPointView, EnergyCell, Gate, Orientation, PasswordGateView, PlayerAnimState, PlayerView,
    Pos, State, StateView, TeleAnimData, Telepad,
};

verus! {

/// The facing after a quarter turn.
pub open spec fn turned(f: Orientation, d: TurnDirection) -> Orientation {
    match d {
        TurnDirection::Right => match f {
            Orientation::Up => Orientation::Right,
            Orientation::Right => Orientation::Down,
            Orientation::Down => Orientation::Left,
            Orientation::Left => Orientation::Up,
        },
        TurnDirection::Left => match f {
            Orientation::Up => Orientation::Left,
            Orientation::Right => Orientation::Up,
            Orientation::Down => Orientation::Right,
            Orientation::Left => Orientation::Down,
        },
    }
}

pub open spec fn step_delta(d: MoveDirection) -> int {
    match d {
        MoveDirection::Forward => 1,
        MoveDirection::Backward => -1,
    }
}

/// The cell one step from `p` along `facing`, forward or backward.
pub open spec fn target_cell(p: Pos, facing: Orientation, d: MoveDirection) -> Pos {
    let delta = step_delta(d);
    match facing {
        Orientation::Up => Pos { x: p.x, y: (p.y - delta) as i32 },
        Orientation::Down => Pos { x: p.x, y: (p.y + delta) as i32 },
        Orientation::Left => Pos { x: (p.x - delta) as i32, y: p.y },
        Orientation::Right => Pos { x: (p.x + delta) as i32, y: p.y },
    }
}

/// Where a move attempt leaves the player, which way it faces, and what was
/// seen: a telepad on the target cell wins, else the player moves if the
/// target is a valid destination, else it bumps into the target.
pub open spec fn move_outcome(s: StateView, b: Bounds, d: MoveDirection) -> (
    Pos,
    Orientation,
    PlayerAnimState,
) {
    let p = s.player.pos;
    let target = target_cell(p, s.player.facing, d);
    match telepad_at(s, target) {
        Some(t) => (
            t.end_pos,
            t.end_facing,
            PlayerAnimState::Teleporting(
                TeleAnimData { start_pos: p, enter_pos: target, exit_pos: t.end_pos },
            ),
        ),
        None => if valid_destination(s, b, target) {
            (target, s.player.facing, PlayerAnimState::Moving)
        } else {
            (
                p,
                s.player.facing,
                PlayerAnimState::Bumping(BumpAnimData { pos: p, obstacle_pos: target }),
            )
        },
    }
}

/// The state at the start of a tick: every per-tick field is back to its
/// neutral value.
pub open spec fn reset_transients(s: StateView) -> StateView {
    StateView {
        player: PlayerView { message: Seq::empty(), anim_state: PlayerAnimState::Idle, ..s.player },
        password_gates: s.password_gates.map_values(
            |g: PasswordGateView| PasswordGateView { wrong_password: false, ..g },
        ),
        data_points: s.data_points.map_values(
            |d: DataPointView| DataPointView { reading: false, ..d },
        ),
        buttons: s.buttons.map_values(|b: ButtonView| ButtonView { currently_pressed: false, ..b }),
        ..s
    }
}

/// A move that costs one energy.
pub open spec fn apply_move(s: StateView, b: Bounds, d: MoveDirection) -> StateView {
    let (pos, facing, anim) = move_outcome(s, b, d);
    StateView {
        player: PlayerView {
            pos,
            facing,
            anim_state: anim,
            energy: (s.player.energy - 1) as u32,
            total_energy_used: (s.player.total_energy_used + 1) as u32,
            ..s.player
        },
        ..s
    }
}

pub open spec fn apply_turn(s: StateView, d: TurnDirection) -> StateView {
    StateView {
        player: PlayerView {
            facing: turned(s.player.facing, d),
            anim_state: PlayerAnimState::Turning,
            ..s.player
        },
        ..s
    }
}

/// What a password gate does when `text` is said at `p`.
pub open spec fn hear(g: PasswordGateView, p: Pos, text: Seq<char>) -> PasswordGateView {
    if !adjacent(p, g.pos) {
        g
    } else if text == g.password {
        PasswordGateView { open: !g.open, ..g }
    } else {
        PasswordGateView { wrong_password: true, ..g }
    }
}

pub open spec fn apply_say(s: StateView, text: Seq<char>) -> StateView {
    StateView {
        player: PlayerView { message: text, ..s.player },
        password_gates: s.password_gates.map_values(
            |g: PasswordGateView| hear(g, s.player.pos, text),
        ),
        ..s
    }
}

pub open spec fn apply_read(s: StateView) -> StateView {
    match first_index(s.data_points, point_next_to(s.player.pos)) {
        Some(i) => StateView {
            data_points: s.data_points.update(i, DataPointView { reading: true, ..s.data_points[i] }),
            ..s
        },
        None => s,
    }
}

/// Pressing button `i`: it shows as pressed, and toggles whichever gate it
/// is wired to.
pub open spec fn press_button_at(s: StateView, i: int) -> StateView {
    let b = s.buttons[i];
    let pressed = StateView {
        buttons: s.buttons.update(i, ButtonView { currently_pressed: true, ..b }),
        ..s
    };
    match b.connection {
        ButtonConnection::Unwired => pressed,
        ButtonConnection::Gate(g) => StateView {
            gates: s.gates.update(g as int, Gate { open: !s.gates[g as int].open, ..s.gates[g as int] }),
            ..pressed
        },
    }
}

pub open spec fn apply_press(s: StateView) -> StateView {
    match first_index(s.buttons, button_next_to(s.player.pos)) {
        Some(i) => press_button_at(s, i),
        None => s,
    }
}

pub open spec fn pickup_at(p: Pos) -> spec_fn(EnergyCell) -> bool {
    |c: EnergyCell| c.pos == p && !c.collected
}

/// The first uncollected energy cell under the player is collected and adds
/// its bonus.
pub open spec fn collect_energy(s: StateView) -> StateView {
    match first_index(s.energy_cells, pickup_at(s.player.pos)) {
        Some(i) => StateView {
            player: PlayerView {
                energy: (s.player.energy + ENERGY_CELL_AMOUNT) as u32,
                ..s.player
            },
            energy_cells: s.energy_cells.update(i, EnergyCell { collected: true, ..s.energy_cells[i] }),
            ..s
        },
        None => s,
    }
}

/// The state after the action itself, before energy is picked up. No
/// action counts as waiting.
pub open spec fn resolve_action(s: StateView, action: Option<Action>, b: Bounds) -> StateView {
    match action {
        Some(Action::Move(d)) => apply_move(s, b, d),
        Some(Action::Turn(d)) => apply_turn(s, d),
        Some(Action::Say(text)) => apply_say(s, text@),
        Some(Action::ReadData) => apply_read(s),
        Some(Action::PressButton) => apply_press(s),
        _ => s,
    }
}

/// A move attempted without energy.
pub open spec fn stalled(s: StateView, action: Option<Action>) -> bool {
    action matches Some(Action::Move(_)) && s.player.energy == 0
}

/// One tick of the player: reset the per-tick fields, resolve the action,
/// then pick up energy. A move without energy does nothing, not even the
/// pickup.
pub open spec fn player_tick(s: StateView, action: Option<Action>, b: Bounds) -> StateView {
    let r = reset_transients(s);
    if stalled(r, action) {
        r
    } else {
        collect_energy(resolve_action(r, action, b))
    }
}

pub proof fn lemma_reset_wf(s: StateView)
    requires
        s.wf(),
    ensures
        reset_transients(s).wf(),
{
    let r = reset_transients(s);
    assert forall|i: int| 0 <= i < r.buttons.len() implies #[trigger] r.buttons[i].connection
        == s.buttons[i].connection by {}
}

pub proof fn lemma_collect_wf(s: StateView)
    requires
        s.wf(),
    ensures
        collect_energy(s).wf(),
{
    lemma_first_index_is_first(s.energy_cells, pickup_at(s.player.pos));
    if let Some(i) = first_index(s.energy_cells, pickup_at(s.player.pos)) {
        lemma_uncollected_collect(s.energy_cells, i);
    }
}

pub proof fn lemma_resolve_wf(s: StateView, action: Option<Action>, b: Bounds)
    requires
        s.wf(),
        b.wf(),
        !stalled(s, action),
    ensures
        resolve_action(s, action, b).wf(),
{
    match action {
        Some(Action::Move(d)) => {
            let target = target_cell(s.player.pos, s.player.facing, d);
            lemma_first_index_is_first(s.telepads, starts_at(target));
        },
        Some(Action::ReadData) => {
            lemma_first_index_is_first(s.data_points, point_next_to(s.player.pos));
        },
        Some(Action::PressButton) => {
            lemma_first_index_is_first(s.buttons, button_next_to(s.player.pos));
            if let Some(i) = first_index(s.buttons, button_next_to(s.player.pos)) {
                let r = press_button_at(s, i);
                assert forall|j: int| 0 <= j < r.buttons.len() implies #[trigger] r.buttons[j].connection
                    == s.buttons[j].connection by {}
            }
        },
        _ => {},
    }
}

/// Every tick keeps the state well formed.
pub proof fn lemma_player_tick_wf(s: StateView, action: Option<Action>, b: Bounds)
    requires
        s.wf(),
        b.wf(),
    ensures
        player_tick(s, action, b).wf(),
{
    let r = reset_transients(s);
    lemma_reset_wf(s);
    if !stalled(r, action) {
        lemma_resolve_wf(r, action, b);
        lemma_collect_wf(resolve_action(r, action, b));
    }
}

/// An energy cell not collected yet lies at `p`.
pub open spec fn uncollected_at(cells: Seq<EnergyCell>, p: Pos) -> bool {
    exists|i: int| 0 <= i < cells.len() && (#[trigger] cells[i]).pos == p && !cells[i].collected
}

/// Energy over one tick: a move attempted without energy changes nothing; a
/// move with energy costs exactly one, blocked or not, and counts as used;
/// and exactly the cell bonus is added when the player ends its action on an
/// energy cell not collected yet.
pub proof fn lemma_energy_accounting(s: StateView, action: Option<Action>, b: Bounds)
    requires
        s.wf(),
        b.wf(),
    ensures
        stalled(s, action) ==> player_tick(s, action, b) == reset_transients(s),
        !stalled(s, action) ==> {
            let t = player_tick(s, action, b);
            let cost: int = if action matches Some(Action::Move(_)) {
                1
            } else {
                0
            };
            let bonus: int = if uncollected_at(
                s.energy_cells,
                resolve_action(reset_transients(s), action, b).player.pos,
            ) {
                ENERGY_CELL_AMOUNT as int
            } else {
                0
            };
            &&& t.player.energy == s.player.energy - cost + bonus
            &&& t.player.total_energy_used == s.player.total_energy_used + cost
        },
{
    let r = reset_transients(s);
    lemma_reset_wf(s);
    if !stalled(s, action) {
        lemma_resolve_wf(r, action, b);
        let m = resolve_action(r, action, b);
        lemma_first_index_is_first(m.energy_cells, pickup_at(m.player.pos));
        assert(m.energy_cells == s.energy_cells);
        if let Some(i) = first_index(m.energy_cells, pickup_at(m.player.pos)) {
            lemma_uncollected_collect(m.energy_cells, i);
            assert(pickup_at(m.player.pos)(m.energy_cells[i]));
            assert(uncollected_at(s.energy_cells, m.player.pos));
            assert(ENERGY_CELL_AMOUNT * uncollected(m.energy_cells) >= ENERGY_CELL_AMOUNT);
        } else {
            if uncollected_at(s.energy_cells, m.player.pos) {
                let k = choose|k: int|
                    0 <= k < s.energy_cells.len() && (#[trigger] s.energy_cells[k]).pos
                        == m.player.pos && !s.energy_cells[k].collected;
                assert(pickup_at(m.player.pos)(m.energy_cells[k]));
            }
        }
    }
}

/// The reset of a tick does not change what blocks a move, nor telepads.
proof fn lemma_reset_keeps_ground(s: StateView, p: Pos)
    ensures
        obstacle_at(reset_transients(s), p) == obstacle_at(s, p),
        closed_gate_at(reset_transients(s), p) == closed_gate_at(s, p),
        closed_password_gate_at(reset_transients(s), p) == closed_password_gate_at(s, p),
        telepad_at(reset_transients(s), p) == telepad_at(s, p),
{
    let r = reset_transients(s);
    assert(r.obstacles == s.obstacles);
    assert(r.data_points.len() == s.data_points.len());
    assert(r.buttons.len() == s.buttons.len());
    if exists|i: int| 0 <= i < r.data_points.len() && (#[trigger] r.data_points[i]).pos == p {
        let i = choose|i: int| 0 <= i < r.data_points.len() && (#[trigger] r.data_points[i]).pos == p;
        assert(r.data_points[i] == (DataPointView { reading: false, ..s.data_points[i] }));
        assert(s.data_points[i].pos == p);
    }
    if exists|i: int| 0 <= i < r.buttons.len() && (#[trigger] r.buttons[i]).pos == p {
        let i = choose|i: int| 0 <= i < r.buttons.len() && (#[trigger] r.buttons[i]).pos == p;
        assert(r.buttons[i] == (ButtonView { currently_pressed: false, ..s.buttons[i] }));
        assert(s.buttons[i].pos == p);
    }
    if exists|i: int| 0 <= i < s.data_points.len() && (#[trigger] s.data_points[i]).pos == p {
        let i = choose|i: int| 0 <= i < s.data_points.len() && (#[trigger] s.data_points[i]).pos == p;
        assert(r.data_points[i] == (DataPointView { reading: false, ..s.data_points[i] }));
        assert(r.data_points[i].pos == p);
    }
    if exists|i: int| 0 <= i < s.buttons.len() && (#[trigger] s.buttons[i]).pos == p {
        let i = choose|i: int| 0 <= i < s.buttons.len() && (#[trigger] s.buttons[i]).pos == p;
        assert(r.buttons[i] == (ButtonView { currently_pressed: false, ..s.buttons[i] }));
        assert(r.buttons[i].pos == p);
    }
    if closed_password_gate_at(s, p) {
        let i = choose|i: int|
            0 <= i < s.password_gates.len() && (#[trigger] s.password_gates[i]).pos == p
                && !s.password_gates[i].open;
        assert(r.password_gates[i].pos == p && !r.password_gates[i].open);
    }
    if closed_password_gate_at(r, p) {
        let i = choose|i: int|
            0 <= i < r.password_gates.len() && (#[trigger] r.password_gates[i]).pos == p
                && !r.password_gates[i].open;
        assert(s.password_gates[i].pos == p && !s.password_gates[i].open);
    }
}

/// A move toward an obstacle, a button, a data point, a closed gate, a
/// closed password gate, or out of bounds leaves the player where it was and
/// shows it bumping into that cell. With none of these there (an open gate or
/// an open password gate does not block) the player moves onto the cell.
/// A telepad on the target cell takes precedence over both.
pub proof fn lemma_move_blocking(s: StateView, b: Bounds, d: MoveDirection)
    requires
        s.wf(),
        b.wf(),
        s.player.energy > 0,
        telepad_at(s, target_cell(s.player.pos, s.player.facing, d)) is None,
    ensures
        ({
            let target = target_cell(s.player.pos, s.player.facing, d);
            let t = player_tick(s, Some(Action::Move(d)), b);
            if obstacle_at(s, target) || closed_gate_at(s, target) || closed_password_gate_at(
                s,
                target,
            ) || outside_bounds(b, target) {
                t.player.pos == s.player.pos && t.player.anim_state == PlayerAnimState::Bumping(
                    BumpAnimData { pos: s.player.pos, obstacle_pos: target },
                )
            } else {
                t.player.pos == target && t.player.anim_state == PlayerAnimState::Moving
            }
        }),
{
    let target = target_cell(s.player.pos, s.player.facing, d);
    lemma_reset_keeps_ground(s, target);
    lemma_energy_accounting(s, Some(Action::Move(d)), b);
}

/// Moving onto a telepad's entry cell puts the player on its exit cell,
/// facing the telepad's direction, and shows the teleport from the start
/// cell through the entry cell to the exit cell.
pub proof fn lemma_teleport(s: StateView, b: Bounds, d: MoveDirection, pad: Telepad)
    requires
        s.wf(),
        b.wf(),
        s.player.energy > 0,
        telepad_at(s, target_cell(s.player.pos, s.player.facing, d)) == Some(pad),
    ensures
        ({
            let t = player_tick(s, Some(Action::Move(d)), b);
            &&& t.player.pos == pad.end_pos
            &&& t.player.facing == pad.end_facing
            &&& t.player.anim_state == PlayerAnimState::Teleporting(
                TeleAnimData {
                    start_pos: s.player.pos,
                    enter_pos: target_cell(s.player.pos, s.player.facing, d),
                    exit_pos: pad.end_pos,
                },
            )
        }),
{
    let target = target_cell(s.player.pos, s.player.facing, d);
    lemma_reset_keeps_ground(s, target);
    lemma_energy_accounting(s, Some(Action::Move(d)), b);
}

/// Saying a password gate's exact password next to it toggles that gate;
/// saying anything else next to it sets its wrong-password flag. The flag
/// holds for that tick only: after any other tick, whatever its action, it
/// is clear.
pub proof fn lemma_password_gate(s: StateView, action: Option<Action>, b: Bounds, i: int)
    requires
        s.wf(),
        b.wf(),
        0 <= i < s.password_gates.len(),
    ensures
        ({
            let g = s.password_gates[i];
            let t = player_tick(s, action, b).password_gates[i];
            let near = adjacent(s.player.pos, g.pos);
            &&& t.wrong_password == (action matches Some(Action::Say(text)) && near && text@
                != g.password)
            &&& t.open == if action matches Some(Action::Say(text)) && near && text@
                == g.password {
                !g.open
            } else {
                g.open
            }
        }),
{
    let r = reset_transients(s);
    lemma_reset_wf(s);
    if !stalled(r, action) {
        lemma_resolve_wf(r, action, b);
        let m = resolve_action(r, action, b);
        lemma_first_index_is_first(m.energy_cells, pickup_at(m.player.pos));
        match action {
            Some(Action::ReadData) => {
                lemma_first_index_is_first(r.data_points, point_next_to(r.player.pos));
            },
            Some(Action::PressButton) => {
                lemma_first_index_is_first(r.buttons, button_next_to(r.player.pos));
            },
            _ => {},
        }
    }
}

/// The action a tick consumes from a queue of pending actions.
pub open spec fn next_action(q: Seq<Action>) -> Option<Action> {
    if q.len() > 0 {
        Some(q[0])
    } else {
        None
    }
}

/// The queue after a tick.
pub open spec fn rest_of(q: Seq<Action>) -> Seq<Action> {
    if q.len() > 0 {
        q.drop_first()
    } else {
        q
    }
}

fn reset_transients_in(state: &mut State)
    ensures
        final(state)@ == reset_transients(old(state)@),
{
    state.player.message = String::new();
    state.player.anim_state = PlayerAnimState::Idle;
    let ghost start = state@;
    let mut i: usize = 0;
    while i < state.data_points.len()
        invariant
            i <= state.data_points.len(),
            state@.data_points.len() == start.data_points.len(),
            forall|j: int| 0 <= j < i ==> #[trigger] state.data_points@[j]@ == (DataPointView { reading: false, ..start.data_points[j] }),
            forall|j: int| i <= j < state.data_points@.len() ==> #[trigger] state.data_points@[j]@ == start.data_points[j],
            state@.player == start.player,
            state@.password_gates == start.password_gates,
            state@.buttons == start.buttons,
            state@.energy_cells == start.energy_cells,
            state@.goals == start.goals,
            state@.enemies == start.enemies,
            state@.obstacles == start.obstacles,
            state@.telepads == start.telepads,
            state@.gates == start.gates,
        decreases state.data_points.len() - i,
    {
        let ghost prev = state.data_points@;
        assert(prev[i as int]@ == start.data_points[i as int]);
        state.data_points[i].reading = false;
        assert(state.data_points@[i as int]@ == (DataPointView { reading: false, ..prev[i as int]@ }));
        i += 1;
    }
    assert(state@.data_points =~= start.data_points.map_values(|d: DataPointView| DataPointView { reading: false, ..d }));
    let mut i: usize = 0;
    while i < state.buttons.len()
        invariant
            i <= state.buttons.len(),
            state@.buttons.len() == start.buttons.len(),
            forall|j: int| 0 <= j < i ==> #[trigger] state.buttons@[j]@ == (ButtonView { currently_pressed: false, ..start.buttons[j] }),
            forall|j: int| i <= j < state.buttons@.len() ==> #[trigger] state.buttons@[j]@ == start.buttons[j],
            state@.data_points =~= start.data_points.map_values(|d: DataPointView| DataPointView { reading: false, ..d }),
            state@.player == start.player,
            state@.password_gates == start.password_gates,
            state@.energy_cells == start.energy_cells,
            state@.goals == start.goals,
            state@.enemies == start.enemies,
            state@.obstacles == start.obstacles,
            state@.telepads == start.telepads,
            state@.gates == start.gates,
        decreases state.buttons.len() - i,
    {
        let ghost prev = state.buttons@;
        assert(prev[i as int]@ == start.buttons[i as int]);
        state.buttons[i].currently_pressed = false;
        assert(state.buttons@[i as int]@ == (ButtonView { currently_pressed: false, ..prev[i as int]@ }));
        i += 1;
    }
    assert(state@.buttons =~= start.buttons.map_values(|b: ButtonView| ButtonView { currently_pressed: false, ..b }));
    let mut i: usize = 0;
    while i < state.password_gates.len()
        invariant
            i <= state.password_gates.len(),
            state@.password_gates.len() == start.password_gates.len(),
            forall|j: int| 0 <= j < i ==> #[trigger] state.password_gates@[j]@ == (PasswordGateView { wrong_password: false, ..start.password_gates[j] }),
            forall|j: int| i <= j < state.password_gates@.len() ==> #[trigger] state.password_gates@[j]@ == start.password_gates[j],
            state@.data_points =~= start.data_points.map_values(|d: DataPointView| DataPointView { reading: false, ..d }),
            state@.buttons =~= start.buttons.map_values(|b: ButtonView| ButtonView { currently_pressed: false, ..b }),
            state@.player == start.player,
            state@.energy_cells == start.energy_cells,
            state@.goals == start.goals,
            state@.enemies == start.enemies,
            state@.obstacles == start.obstacles,
            state@.telepads == start.telepads,
            state@.gates == start.gates,
        decreases state.password_gates.len() - i,
    {
        let ghost prev = state.password_gates@;
        assert(prev[i as int]@ == start.password_gates[i as int]);
        state.password_gates[i].wrong_password = false;
        assert(state.password_gates@[i as int]@ == (PasswordGateView { wrong_password: false, ..prev[i as int]@ }));
        i += 1;
    }
    assert(state@.password_gates =~= start.password_gates.map_values(|g: PasswordGateView| PasswordGateView { wrong_password: false, ..g }));
}

fn collect_energy_in(state: &mut State)
    requires
        old(state)@.player.energy + ENERGY_CELL_AMOUNT * uncollected(old(state)@.energy_cells)
            <= u32::MAX,
    ensures
        final(state)@ == collect_energy(old(state)@),
{
    let pos = state.player.pos;
    let mut i: usize = 0;
    while i < state.energy_cells.len()
        invariant
            i <= state.energy_cells.len(),
            state@ == old(state)@,
            pos == state.player.pos,
            old(state)@.player.energy + ENERGY_CELL_AMOUNT * uncollected(old(state)@.energy_cells)
                <= u32::MAX,
            forall|j: int| 0 <= j < i ==> !pickup_at(pos)(#[trigger] state@.energy_cells[j]),
        decreases state.energy_cells.len() - i,
    {
        let c = state.energy_cells[i];
        if c.pos.x == pos.x && c.pos.y == pos.y && !c.collected {
            proof {
                lemma_first_index(state@.energy_cells, pickup_at(pos), i as int);
                lemma_uncollected_collect(state@.energy_cells, i as int);
                assert(ENERGY_CELL_AMOUNT * uncollected(state@.energy_cells) >= ENERGY_CELL_AMOUNT);
            }
            state.player.energy = state.player.energy + ENERGY_CELL_AMOUNT;
            state.energy_cells.set(i, EnergyCell { collected: true, ..c });
            return;
        }
        i += 1;
    }
    proof {
        lemma_first_index_none(state@.energy_cells, pickup_at(pos));
    }
}

/// Every password gate next to the player hears `message`.
fn hear_in(state: &mut State, message: &String)
    ensures
        final(state)@ == (StateView {
            password_gates: old(state)@.password_gates.map_values(
                |g: PasswordGateView| hear(g, old(state)@.player.pos, message@),
            ),
            ..old(state)@
        }),
{
    let pos = state.player.pos;
    let gate_indexes = get_adjacent_password_gates(state, &pos);
    let ghost start = state@;
    let mut k: usize = 0;
    while k < gate_indexes.len()
        invariant
            k <= gate_indexes.len(),
            start == old(state)@,
            pos == start.player.pos,
            lists_adjacent_gates(gate_indexes@, start.password_gates, pos),
            state.password_gates@.len() == start.password_gates.len(),
            forall|j: int|
                0 <= j < start.password_gates.len() ==> #[trigger] state.password_gates@[j]@ == if (
                exists|m: int| 0 <= m < k && gate_indexes@[m] == j) {
                    hear(start.password_gates[j], pos, message@)
                } else {
                    start.password_gates[j]
                },
            state@ == (StateView { password_gates: state@.password_gates, ..start }),
        decreases gate_indexes.len() - k,
    {
        let gi = gate_indexes[k];
        let ghost prev = state.password_gates@;
        assert(!exists|m: int| 0 <= m < k && gate_indexes@[m] == gi) by {
            assert forall|m: int| 0 <= m < k implies gate_indexes@[m] != gi by {
                assert(gate_indexes@[m] < gate_indexes@[k as int]);
            }
        }
        assert(gi < start.password_gates.len() && adjacent(pos, start.password_gates[gi as int].pos));
        assert(prev[gi as int]@ == start.password_gates[gi as int]);
        if *message == state.password_gates[gi].password {
            state.password_gates[gi].open = !state.password_gates[gi].open;
        } else {
            state.password_gates[gi].wrong_password = true;
        }
        assert(state.password_gates@[gi as int]@ == hear(start.password_gates[gi as int], pos, message@));
        k += 1;
        assert forall|j: int| 0 <= j < start.password_gates.len() implies #[trigger] state.password_gates@[j]@ == if (
            exists|m: int| 0 <= m < k && gate_indexes@[m] == j) {
                hear(start.password_gates[j], pos, message@)
            } else {
                start.password_gates[j]
            } by {
            if j == gi {
                assert(gate_indexes@[k - 1] == j);
            } else {
                assert(state.password_gates@[j] == prev[j]);
                if exists|m: int| 0 <= m < k && gate_indexes@[m] == j {
                    let m = choose|m: int| 0 <= m < k && gate_indexes@[m] == j;
                    assert(m < k - 1);
                }
            }
        }
    }
    assert forall|j: int| 0 <= j < start.password_gates.len() implies #[trigger] state.password_gates@[j]@ == hear(start.password_gates[j], pos, message@) by {
        if adjacent(pos, start.password_gates[j].pos) {
            let m = choose|m: int| 0 <= m < gate_indexes@.len() && gate_indexes@[m] == j;
        } else {
            if exists|m: int| 0 <= m < k && gate_indexes@[m] == j {
                let m = choose|m: int| 0 <= m < k && gate_indexes@[m] == j;
                assert(adjacent(pos, start.password_gates[gate_indexes@[m] as int].pos));
            }
        }
    }
    assert(state@.password_gates =~= start.password_gates.map_values(
        |g: PasswordGateView| hear(g, pos, message@),
    ));
}

/// The player actor. It takes the player's actions, in the order they were
/// sent, from a queue: one per tick.
pub struct PlayerChannelActor {
    queue: VecDeque<Action>,
    bounds: Bounds,
}

impl PlayerChannelActor {
    /// The actions sent and not consumed yet, oldest first.
    pub closed spec fn pending(&self) -> Seq<Action> {
        self.queue@
    }

    /// Where the player may move.
    pub closed spec fn spec_bounds(&self) -> Bounds {
        self.bounds
    }

    pub open spec fn wf(&self) -> bool {
        self.spec_bounds().wf()
    }

    pub fn new(bounds: Bounds) -> (r: PlayerChannelActor)
        ensures
            r.pending() == Seq::<Action>::empty(),
            r.spec_bounds() == bounds,
    {
        PlayerChannelActor { queue: VecDeque::new(), bounds }
    }

    pub fn set_bounds(&mut self, bounds: Bounds)
        ensures
            final(self).pending() == old(self).pending(),
            final(self).spec_bounds() == bounds,
    {
        self.bounds = bounds;
    }

    /// Queues an action for a later tick.
    pub fn send(&mut self, action: Action)
        ensures
            final(self).pending() == old(self).pending().push(action),
            final(self).spec_bounds() == old(self).spec_bounds(),
    {
        self.queue.push_back(action);
    }

    /// Drops every pending action.
    pub fn clear(&mut self)
        ensures
            final(self).pending() == Seq::<Action>::empty(),
            final(self).spec_bounds() == old(self).spec_bounds(),
    {
        self.queue.clear();
    }

    /// First checks if we can move in the desired direction, and if so,
    /// returns the new position. Otherwise, returns the current position.
    pub fn try_to_move(&self, state: &State, direction: MoveDirection) -> (r: (
        Pos,
        Orientation,
        PlayerAnimState,
    ))
        requires
            interior(state@.player.pos),
        ensures
            r == move_outcome(state@, self.spec_bounds(), direction),
    {
        let delta: i32 = match direction {
            MoveDirection::Forward => 1,
            MoveDirection::Backward => -1,
        };
        let p = state.player.pos;
        let desired_pos = match state.player.facing {
            Orientation::Up => Pos::new(p.x, p.y - delta),
            Orientation::Down => Pos::new(p.x, p.y + delta),
            Orientation::Left => Pos::new(p.x - delta, p.y),
            Orientation::Right => Pos::new(p.x + delta, p.y),
        };
        assert(desired_pos == target_cell(p, state.player.facing, direction));
        if let Some(telepad) = get_telepad_at(state, &desired_pos) {
            return (
                telepad.end_pos,
                telepad.end_facing,
                PlayerAnimState::Teleporting(
                    TeleAnimData { start_pos: p, enter_pos: desired_pos, exit_pos: telepad.end_pos },
                ),
            );
        }
        if can_move_to(state, &self.bounds, &desired_pos) {
            (desired_pos, state.player.facing, PlayerAnimState::Moving)
        } else {
            (
                p,
                state.player.facing,
                PlayerAnimState::Bumping(BumpAnimData { pos: p, obstacle_pos: desired_pos }),
            )
        }
    }

    /// Presses the button with the given index.
    pub fn handle_button_press(&self, state: &mut State, button_index: usize)
        requires
            old(state)@.wf(),
            button_index < old(state)@.buttons.len(),
        ensures
            final(state)@ == press_button_at(old(state)@, button_index as int),
    {
        state.buttons[button_index].currently_pressed = true;
        match state.buttons[button_index].connection {
            ButtonConnection::Unwired => {},
            ButtonConnection::Gate(gate_index) => {
                assert(old(state)@.buttons[button_index as int].connection == ButtonConnection::Gate(gate_index));
                state.gates[gate_index].open = !state.gates[gate_index].open;
            },
        }
        assert(state@.buttons =~= press_button_at(old(state)@, button_index as int).buttons);
        assert(state@.gates =~= press_button_at(old(state)@, button_index as int).gates);
    }
}

impl Actor for PlayerChannelActor {
    open spec fn ready(&self, state: StateView) -> bool {
        self.wf() && state.wf()
    }

    open spec fn acted(&self, state: StateView) -> StateView {
        player_tick(state, next_action(self.pending()), self.spec_bounds())
    }

    /// Takes the oldest pending action, if any, and resolves it against the
    /// given state.
    fn apply(&mut self, state: State) -> (r: State)
        ensures
            r@.wf(),
            final(self).pending() == rest_of(old(self).pending()),
            final(self).spec_bounds() == old(self).spec_bounds(),
    {
        let ghost s0 = state@;
        let ghost act = next_action(self.queue@);
        let mut state = state;
        reset_transients_in(&mut state);
        let ghost r0 = state@;
        proof {
            lemma_reset_wf(s0);
            lemma_player_tick_wf(s0, act, self.bounds);
        }
        let action = self.queue.pop_front();
        match action {
            None => {},
            Some(Action::Wait) => {},
            Some(Action::Move(direction)) => {
                // We can't move if we're out of energy.
                if state.player.energy == 0 {
                    return state;
                }
                // Moving costs one energy, whether or not the player gets
                // anywhere.
                let (new_pos, new_facing, new_anim_state) = self.try_to_move(&state, direction);
                state.player.energy = state.player.energy - 1;
                state.player.total_energy_used = state.player.total_energy_used + 1;
                state.player.pos = new_pos;
                state.player.facing = new_facing;
                state.player.anim_state = new_anim_state;
            },
            Some(Action::Turn(direction)) => {
                state.player.anim_state = PlayerAnimState::Turning;
                state.player.facing = match direction {
                    TurnDirection::Right => match state.player.facing {
                        Orientation::Up => Orientation::Right,
                        Orientation::Right => Orientation::Down,
                        Orientation::Down => Orientation::Left,
                        Orientation::Left => Orientation::Up,
                    },
                    TurnDirection::Left => match state.player.facing {
                        Orientation::Up => Orientation::Left,
                        Orientation::Right => Orientation::Up,
                        Orientation::Down => Orientation::Right,
                        Orientation::Left => Orientation::Down,
                    },
                };
            },
            Some(Action::Say(message)) => {
                // Password gates next to the player open or close on their
                // password, and notice anything else.
                hear_in(&mut state, &message);
                state.player.message = message;
            },
            Some(Action::ReadData) => {
                // Reading only shows in the UI.
                let pos = state.player.pos;
                if let Some(d_point_index) = get_adjacent_terminal(&state, &pos) {
                    let ghost prev = state.data_points@;
                    assert(prev[d_point_index as int]@ == r0.data_points[d_point_index as int]);
                    state.data_points[d_point_index].reading = true;
                    assert(state@.data_points =~= r0.data_points.update(
                        d_point_index as int,
                        DataPointView { reading: true, ..r0.data_points[d_point_index as int] },
                    ));
                }
            },
            Some(Action::PressButton) => {
                let pos = state.player.pos;
                if let Some(button_index) = get_adjacent_button(&state, &pos) {
                    self.handle_button_press(&mut state, button_index);
                }
            },
        }
        assert(state@ == resolve_action(r0, act, self.bounds));
        proof {
            lemma_resolve_wf(r0, act, self.bounds);
        }
        // Energy is picked up after moving, whatever the action was.
        collect_energy_in(&mut state);
        state
    }
}

} // verus!
