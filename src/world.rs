//! The world of one tick: positions, the player, every kind of object on
//! the grid, and the state that holds them, each with its view.

use vstd::prelude::*;

use crate::constants::{ENERGY_CELL_AMOUNT, MAX_ENERGY};

verus! {

/// A cell of the grid.
#[derive(Clone, Copy, PartialEq, Eq, Structural, Debug)]
pub struct Pos {
    pub x: i32,
    pub y: i32,
}

impl Pos {
    pub fn new(x: i32, y: i32) -> (r: Pos)
        ensures
            r == (Pos { x, y }),
    {
        Pos { x, y }
    }

    pub fn get_x(&mut self) -> (r: i64)
        ensures
            r == old(self).x as i64,
            *final(self) == *old(self),
    {
        self.x as i64
    }

    pub fn get_y(&mut self) -> (r: i64)
        ensures
            r == old(self).y as i64,
            *final(self) == *old(self),
    {
        self.y as i64
    }
}

/// The cell at grid coordinates `(x, y)` given as unsigned numbers.
pub open spec fn cell(x: u32, y: u32) -> Pos {
    Pos { x: x as i32, y: y as i32 }
}

/// True iff `b` is exactly one cell away from `a` in one of the four
/// cardinal directions.
pub open spec fn adjacent(a: Pos, b: Pos) -> bool {
    (a.x == b.x && (b.y == a.y + 1 || b.y == a.y - 1)) || (a.y == b.y && (b.x == a.x + 1 || b.x
        == a.x - 1))
}

/// True iff a step of one cell from `p` in any direction stays representable.
pub open spec fn interior(p: Pos) -> bool {
    i32::MIN < p.x < i32::MAX && i32::MIN < p.y < i32::MAX
}

/// Executable form of [`adjacent`].
pub fn is_adjacent(a: &Pos, b: &Pos) -> (r: bool)
    ensures
        r == adjacent(*a, *b),
{
    let (ax, ay, bx, by) = (a.x as i64, a.y as i64, b.x as i64, b.y as i64);
    (ax == bx && (by == ay + 1 || by == ay - 1)) || (ay == by && (bx == ax + 1 || bx == ax - 1))
}

#[derive(Clone, Copy, PartialEq, Eq, Structural, Debug)]
pub enum Orientation {
    Up,
    Down,
    Left,
    Right,
}

#[derive(Clone, Copy, PartialEq, Eq, Structural, Debug)]
pub struct BumpAnimData {
    pub pos: Pos,
    pub obstacle_pos: Pos,
}

#[derive(Clone, Copy, PartialEq, Eq, Structural, Debug)]
pub struct TeleAnimData {
    pub start_pos: Pos,
    pub enter_pos: Pos,
    pub exit_pos: Pos,
}

/// What visibly happened to the player during the last tick. It is
/// descriptive only: no rule of the game reads it.
#[derive(Clone, Copy, PartialEq, Eq, Structural, Debug)]
pub enum PlayerAnimState {
    Idle,
    Moving,
    Turning,
    Bumping(BumpAnimData),
    Teleporting(TeleAnimData),
}

/// A value that can be copied into an independent value with the same view.
pub trait Duplicate: View + Sized {
    fn duplicate(&self) -> (r: Self)
        ensures
            r@ == self@,
    ;
}

/// Copies a vector of plain values.
pub fn copy_vec<T: Copy>(v: &Vec<T>) -> (r: Vec<T>)
    ensures
        r@ == v@,
{
    let mut out: Vec<T> = Vec::new();
    let mut i: usize = 0;
    while i < v.len()
        invariant
            i <= v.len(),
            out@ == v@.subrange(0, i as int),
        decreases v.len() - i,
    {
        out.push(v[i]);
        i += 1;
        assert(out@ =~= v@.subrange(0, i as int));
    }
    assert(out@ =~= v@);
    out
}

/// Copies a vector of values element by element.
pub fn duplicate_vec<T: Duplicate>(v: &Vec<T>) -> (r: Vec<T>)
    ensures
        r@.len() == v@.len(),
        forall|i: int| 0 <= i < v@.len() ==> #[trigger] r@[i]@ == v@[i]@,
{
    let mut out: Vec<T> = Vec::new();
    let mut i: usize = 0;
    while i < v.len()
        invariant
            i <= v.len(),
            out@.len() == i,
            forall|j: int| 0 <= j < i ==> #[trigger] out@[j]@ == v@[j]@,
        decreases v.len() - i,
    {
        let d = v[i].duplicate();
        out.push(d);
        i += 1;
    }
    out
}

#[derive(Clone, PartialEq, Debug)]
pub struct Player {
    pub pos: Pos,
    pub energy: u32,
    pub message: String,
    pub anim_state: PlayerAnimState,
    pub facing: Orientation,
    pub total_energy_used: u32,
}

pub struct PlayerView {
    pub pos: Pos,
    pub energy: u32,
    pub message: Seq<char>,
    pub anim_state: PlayerAnimState,
    pub facing: Orientation,
    pub total_energy_used: u32,
}

impl View for Player {
    type V = PlayerView;

    open spec fn view(&self) -> PlayerView {
        PlayerView {
            pos: self.pos,
            energy: self.energy,
            message: self.message@,
            anim_state: self.anim_state,
            facing: self.facing,
            total_energy_used: self.total_energy_used,
        }
    }
}

impl Duplicate for Player {
    fn duplicate(&self) -> (r: Player) {
        Player {
            pos: self.pos,
            energy: self.energy,
            message: self.message.clone(),
            anim_state: self.anim_state,
            facing: self.facing,
            total_energy_used: self.total_energy_used,
        }
    }
}

/// A player at the start of a run: silent, idle, nothing used yet.
pub open spec fn new_player(x: u32, y: u32, energy: u32, facing: Orientation) -> PlayerView {
    PlayerView {
        pos: cell(x, y),
        energy,
        message: Seq::empty(),
        anim_state: PlayerAnimState::Idle,
        facing,
        total_energy_used: 0,
    }
}

impl Player {
    pub fn new(x: u32, y: u32, energy: u32, facing: Orientation) -> (r: Player)
        ensures
            r@ == new_player(x, y, energy, facing),
    {
        Player {
            pos: Pos::new(x as i32, y as i32),
            energy,
            message: String::new(),
            anim_state: PlayerAnimState::Idle,
            facing,
            total_energy_used: 0,
        }
    }

    pub fn get_pos(&mut self) -> (r: Pos)
        ensures
            r == old(self).pos,
            final(self)@ == old(self)@,
    {
        self.pos
    }
}

#[derive(Clone, Copy, PartialEq, Eq, Structural, Debug)]
pub struct EnergyCell {
    pub pos: Pos,
    pub collected: bool,
}

impl EnergyCell {
    pub fn new(x: u32, y: u32) -> (r: EnergyCell)
        ensures
            r == (EnergyCell { pos: cell(x, y), collected: false }),
    {
        EnergyCell { pos: Pos::new(x as i32, y as i32), collected: false }
    }
}

/// Energy cells were once called fuel spots.
pub type FuelSpot = EnergyCell;

#[derive(Clone, Copy, PartialEq, Eq, Structural, Debug)]
pub struct Goal {
    pub pos: Pos,
}

#[derive(Clone, Copy, PartialEq, Eq, Structural, Debug)]
pub enum EnemyAnimState {
    Idle,
    Moving,
}

#[derive(Clone, Copy, PartialEq, Eq, Structural, Debug)]
pub struct Enemy {
    pub pos: Pos,
    pub anim_state: EnemyAnimState,
}

impl Enemy {
    pub fn new(x: u32, y: u32) -> (r: Enemy)
        ensures
            r == (Enemy { pos: cell(x, y), anim_state: EnemyAnimState::Idle }),
    {
        Enemy { pos: Pos::new(x as i32, y as i32), anim_state: EnemyAnimState::Idle }
    }
}

#[derive(Clone, Copy, PartialEq, Eq, Structural, Debug)]
pub struct Obstacle {
    pub pos: Pos,
}

impl Obstacle {
    pub fn new(x: u32, y: u32) -> (r: Obstacle)
        ensures
            r == (Obstacle { pos: cell(x, y) }),
    {
        Obstacle { pos: Pos::new(x as i32, y as i32) }
    }
}

/// Which diagonal a gate is drawn along.
#[derive(Clone, Copy, PartialEq, Eq, Structural, Debug)]
pub enum GateVariant {
    NESW,
    NWSE,
}

#[derive(Clone, Copy, PartialEq, Eq, Structural, Debug)]
pub struct Gate {
    pub pos: Pos,
    pub open: bool,
    pub variant: GateVariant,
}

impl Gate {
    pub fn new(x: u32, y: u32, open: bool, variant: GateVariant) -> (r: Gate)
        ensures
            r == (Gate { pos: cell(x, y), open, variant }),
    {
        Gate { pos: Pos::new(x as i32, y as i32), open, variant }
    }
}

#[derive(Clone, PartialEq, Debug)]
pub struct PasswordGate {
    pub pos: Pos,
    pub password: String,
    pub open: bool,
    pub variant: GateVariant,
    pub additional_info: String,
    /// Set for one tick when something other than the password was said next
    /// to that gate.
    pub wrong_password: bool,
}

pub struct PasswordGateView {
    pub pos: Pos,
    pub password: Seq<char>,
    pub open: bool,
    pub variant: GateVariant,
    pub additional_info: Seq<char>,
    pub wrong_password: bool,
}

impl View for PasswordGate {
    type V = PasswordGateView;

    open spec fn view(&self) -> PasswordGateView {
        PasswordGateView {
            pos: self.pos,
            password: self.password@,
            open: self.open,
            variant: self.variant,
            additional_info: self.additional_info@,
            wrong_password: self.wrong_password,
        }
    }
}

impl Duplicate for PasswordGate {
    fn duplicate(&self) -> (r: PasswordGate) {
        PasswordGate {
            pos: self.pos,
            password: self.password.clone(),
            open: self.open,
            variant: self.variant,
            additional_info: self.additional_info.clone(),
            wrong_password: self.wrong_password,
        }
    }
}

impl PasswordGate {
    pub fn new(x: u32, y: u32, password: String, open: bool, variant: GateVariant) -> (r:
        PasswordGate)
        ensures
            r@ == (PasswordGateView {
                pos: cell(x, y),
                password: password@,
                open,
                variant,
                additional_info: Seq::empty(),
                wrong_password: false,
            }),
    {
        PasswordGate {
            pos: Pos::new(x as i32, y as i32),
            password,
            open,
            variant,
            additional_info: String::new(),
            wrong_password: false,
        }
    }
}

/// What pressing a button does.
#[derive(Clone, Copy, PartialEq, Eq, Structural, Debug)]
pub enum ButtonConnection {
    Unwired,
    /// Toggles whichever gate has this index.
    Gate(usize),
}

#[derive(Clone, PartialEq, Debug)]
pub struct Button {
    pub pos: Pos,
    pub connection: ButtonConnection,
    /// Set for the one tick in which the button was pressed.
    pub currently_pressed: bool,
    pub additional_info: String,
}

pub struct ButtonView {
    pub pos: Pos,
    pub connection: ButtonConnection,
    pub currently_pressed: bool,
    pub additional_info: Seq<char>,
}

impl View for Button {
    type V = ButtonView;

    open spec fn view(&self) -> ButtonView {
        ButtonView {
            pos: self.pos,
            connection: self.connection,
            currently_pressed: self.currently_pressed,
            additional_info: self.additional_info@,
        }
    }
}

impl Duplicate for Button {
    fn duplicate(&self) -> (r: Button) {
        Button {
            pos: self.pos,
            connection: self.connection,
            currently_pressed: self.currently_pressed,
            additional_info: self.additional_info.clone(),
        }
    }
}

impl Button {
    pub fn new(x: u32, y: u32, connection: ButtonConnection) -> (r: Button)
        ensures
            r@ == (ButtonView {
                pos: cell(x, y),
                connection,
                currently_pressed: false,
                additional_info: Seq::empty(),
            }),
    {
        Button {
            pos: Pos::new(x as i32, y as i32),
            connection,
            currently_pressed: false,
            additional_info: String::new(),
        }
    }

    pub fn new_with_info(x: u32, y: u32, connection: ButtonConnection, info: String) -> (r:
        Button)
        ensures
            r@ == (ButtonView {
                pos: cell(x, y),
                connection,
                currently_pressed: false,
                additional_info: info@,
            }),
    {
        Button {
            pos: Pos::new(x as i32, y as i32),
            connection,
            currently_pressed: false,
            additional_info: info,
        }
    }
}

/// The payload of a data point.
#[derive(Debug)]
pub enum TermData {
    String(String),
    Array(Vec<TermData>),
}

pub enum TermDataView {
    Text(Seq<char>),
    List(Seq<TermDataView>),
}

pub open spec fn term_view(t: TermData) -> TermDataView
    decreases t, 0int,
{
    match t {
        TermData::String(s) => TermDataView::Text(s@),
        TermData::Array(v) => TermDataView::List(term_list_view(v, v.len() as int)),
    }
}

/// The views of the first `n` items of `v`.
pub open spec fn term_list_view(v: Vec<TermData>, n: int) -> Seq<TermDataView>
    decreases v, n,
{
    if n <= 0 || n > v.len() {
        Seq::empty()
    } else {
        term_list_view(v, n - 1).push(term_view(v[n - 1]))
    }
}

proof fn lemma_term_list_view_prefix(a: Vec<TermData>, b: Vec<TermData>, n: int)
    requires
        0 <= n <= a.len(),
        n <= b.len(),
        forall|j: int| 0 <= j < n ==> term_view(#[trigger] a[j]) == term_view(b[j]),
    ensures
        term_list_view(a, n) == term_list_view(b, n),
    decreases n,
{
    if n > 0 {
        lemma_term_list_view_prefix(a, b, n - 1);
    }
}

impl View for TermData {
    type V = TermDataView;

    open spec fn view(&self) -> TermDataView {
        term_view(*self)
    }
}

impl Duplicate for TermData {
    fn duplicate(&self) -> (r: TermData)
        decreases *self,
    {
        match self {
            TermData::String(s) => TermData::String(s.clone()),
            TermData::Array(v) => {
                let mut out: Vec<TermData> = Vec::new();
                let mut i: usize = 0;
                while i < v.len()
                    invariant
                        i <= v.len(),
                        *self == TermData::Array(*v),
                        out.len() == i,
                        forall|j: int| 0 <= j < i ==> term_view(#[trigger] out[j]) == term_view(v[j]),
                    decreases v.len() - i,
                {
                    proof {
                        broadcast use vstd::std_specs::vec::axiom_vec_index_decreases;

                        assert(decreases_to!(*v => v[i as int]));
                        assert(decreases_to!(*self => (*self)->Array_0));
                    }
                    let d = v[i].duplicate();
                    out.push(d);
                    i += 1;
                }
                proof {
                    lemma_term_list_view_prefix(out, *v, v.len() as int);
                }
                TermData::Array(out)
            }
        }
    }
}

impl Clone for TermData {
    fn clone(&self) -> (r: TermData)
        ensures
            r@ == self@,
    {
        self.duplicate()
    }
}

impl From<String> for TermData {
    fn from(s: String) -> (r: TermData) {
        TermData::String(s)
    }
}

impl vstd::std_specs::convert::FromSpecImpl<String> for TermData {
    open spec fn obeys_from_spec() -> bool {
        true
    }

    open spec fn from_spec(v: String) -> TermData {
        TermData::String(v)
    }
}

impl From<Vec<TermData>> for TermData {
    fn from(v: Vec<TermData>) -> (r: TermData) {
        TermData::Array(v)
    }
}

impl vstd::std_specs::convert::FromSpecImpl<Vec<TermData>> for TermData {
    open spec fn obeys_from_spec() -> bool {
        true
    }

    open spec fn from_spec(v: Vec<TermData>) -> TermData {
        TermData::Array(v)
    }
}

/// A data point (or terminal). It blocks movement and can be read from an
/// adjacent cell.
#[derive(Clone, Debug)]
pub struct DataPoint {
    pub pos: Pos,
    pub data: TermData,
    /// Set for the one tick in which the data point was read.
    pub reading: bool,
}

/// Data points were once called data terminals.
pub type DataTerminal = DataPoint;

pub struct DataPointView {
    pub pos: Pos,
    pub data: TermDataView,
    pub reading: bool,
}

impl View for DataPoint {
    type V = DataPointView;

    open spec fn view(&self) -> DataPointView {
        DataPointView { pos: self.pos, data: self.data@, reading: self.reading }
    }
}

impl Duplicate for DataPoint {
    fn duplicate(&self) -> (r: DataPoint) {
        DataPoint { pos: self.pos, data: self.data.duplicate(), reading: self.reading }
    }
}

impl DataPoint {
    pub fn new(x: u32, y: u32, data: String) -> (r: DataPoint)
        ensures
            r@ == (DataPointView {
                pos: cell(x, y),
                data: TermDataView::Text(data@),
                reading: false,
            }),
    {
        DataPoint { pos: Pos::new(x as i32, y as i32), data: TermData::String(data), reading: false }
    }
}

/// Entering `start_pos` moves the player to `end_pos`, facing `end_facing`.
#[derive(Clone, Copy, PartialEq, Eq, Structural, Debug)]
pub struct Telepad {
    pub start_pos: Pos,
    pub end_pos: Pos,
    pub end_facing: Orientation,
}

impl Telepad {
    pub fn new(start: (u32, u32), end: (u32, u32), end_facing: Orientation) -> (r: Telepad)
        ensures
            r == (Telepad {
                start_pos: cell(start.0, start.1),
                end_pos: cell(end.0, end.1),
                end_facing,
            }),
    {
        Telepad {
            start_pos: Pos::new(start.0 as i32, start.1 as i32),
            end_pos: Pos::new(end.0 as i32, end.1 as i32),
            end_facing,
        }
    }
}

/// One snapshot of the whole world.
#[derive(Clone, Debug)]
pub struct State {
    pub player: Player,
    pub energy_cells: Vec<EnergyCell>,
    pub goals: Vec<Goal>,
    pub enemies: Vec<Enemy>,
    pub obstacles: Vec<Obstacle>,
    pub password_gates: Vec<PasswordGate>,
    pub data_points: Vec<DataPoint>,
    pub telepads: Vec<Telepad>,
    pub buttons: Vec<Button>,
    pub gates: Vec<Gate>,
}

pub struct StateView {
    pub player: PlayerView,
    pub energy_cells: Seq<EnergyCell>,
    pub goals: Seq<Goal>,
    pub enemies: Seq<Enemy>,
    pub obstacles: Seq<Obstacle>,
    pub password_gates: Seq<PasswordGateView>,
    pub data_points: Seq<DataPointView>,
    pub telepads: Seq<Telepad>,
    pub buttons: Seq<ButtonView>,
    pub gates: Seq<Gate>,
}

impl View for State {
    type V = StateView;

    open spec fn view(&self) -> StateView {
        StateView {
            player: self.player@,
            energy_cells: self.energy_cells@,
            goals: self.goals@,
            enemies: self.enemies@,
            obstacles: self.obstacles@,
            password_gates: self.password_gates@.map_values(|g: PasswordGate| g@),
            data_points: self.data_points@.map_values(|d: DataPoint| d@),
            telepads: self.telepads@,
            buttons: self.buttons@.map_values(|b: Button| b@),
            gates: self.gates@,
        }
    }
}

/// The number of energy cells not collected yet.
pub open spec fn uncollected(cells: Seq<EnergyCell>) -> nat
    decreases cells.len(),
{
    if cells.len() == 0 {
        0
    } else {
        uncollected(cells.drop_last()) + if cells.last().collected {
            0nat
        } else {
            1nat
        }
    }
}

pub proof fn lemma_uncollected_bounded(cells: Seq<EnergyCell>)
    ensures
        uncollected(cells) <= cells.len(),
    decreases cells.len(),
{
    if cells.len() > 0 {
        lemma_uncollected_bounded(cells.drop_last());
    }
}

/// Collecting one cell leaves one fewer to collect.
pub proof fn lemma_uncollected_collect(cells: Seq<EnergyCell>, i: int)
    requires
        0 <= i < cells.len(),
        !cells[i].collected,
    ensures
        uncollected(cells.update(i, EnergyCell { collected: true, ..cells[i] })) + 1 == uncollected(
            cells,
        ),
    decreases cells.len(),
{
    let upd = cells.update(i, EnergyCell { collected: true, ..cells[i] });
    if i == cells.len() - 1 {
        assert(upd.drop_last() =~= cells.drop_last());
    } else {
        lemma_uncollected_collect(cells.drop_last(), i);
        assert(upd.drop_last() =~= cells.drop_last().update(
            i,
            EnergyCell { collected: true, ..cells[i] },
        ));
    }
}

impl StateView {
    /// What every state of a run satisfies: the player can take one step
    /// without leaving the representable grid, wherever a telepad may send
    /// it; every button is wired to an existing gate; and the energy counters
    /// cannot overflow, whatever is still collected.
    pub open spec fn wf(self) -> bool {
        &&& interior(self.player.pos)
        &&& forall|i: int| 0 <= i < self.telepads.len() ==> interior(#[trigger] self.telepads[i].end_pos)
        &&& forall|i: int|
            0 <= i < self.buttons.len() ==> match #[trigger] self.buttons[i].connection {
                ButtonConnection::Gate(g) => g < self.gates.len(),
                ButtonConnection::Unwired => true,
            }
        &&& self.player.energy + self.player.total_energy_used + ENERGY_CELL_AMOUNT * uncollected(
            self.energy_cells,
        ) <= u32::MAX
    }
}

/// The world of [`State::new`]: nothing in it but the player at the
/// origin, facing right, with full energy.
pub open spec fn empty_world() -> StateView {
    StateView {
        player: PlayerView {
            pos: Pos { x: 0, y: 0 },
            energy: MAX_ENERGY,
            message: Seq::empty(),
            anim_state: PlayerAnimState::Idle,
            facing: Orientation::Right,
            total_energy_used: 0,
        },
        energy_cells: Seq::empty(),
        goals: Seq::empty(),
        enemies: Seq::empty(),
        obstacles: Seq::empty(),
        password_gates: Seq::empty(),
        data_points: Seq::empty(),
        telepads: Seq::empty(),
        buttons: Seq::empty(),
        gates: Seq::empty(),
    }
}

impl Duplicate for State {
    fn duplicate(&self) -> (r: State) {
        let password_gates = duplicate_vec(&self.password_gates);
        let data_points = duplicate_vec(&self.data_points);
        let buttons = duplicate_vec(&self.buttons);
        let r = State {
            player: self.player.duplicate(),
            energy_cells: copy_vec(&self.energy_cells),
            goals: copy_vec(&self.goals),
            enemies: copy_vec(&self.enemies),
            obstacles: copy_vec(&self.obstacles),
            password_gates,
            data_points,
            telepads: copy_vec(&self.telepads),
            buttons,
            gates: copy_vec(&self.gates),
        };
        assert(r@.password_gates =~= self@.password_gates);
        assert(r@.data_points =~= self@.data_points);
        assert(r@.buttons =~= self@.buttons);
        r
    }
}

impl State {
    /// An empty world with the player at the origin, facing right, with full
    /// energy.
    pub fn new() -> (r: State)
        ensures
            r@ == empty_world(),
            r@.wf(),
    {
        let r = State {
            player: Player::new(0, 0, MAX_ENERGY, Orientation::Right),
            energy_cells: Vec::new(),
            goals: Vec::new(),
            enemies: Vec::new(),
            obstacles: Vec::new(),
            password_gates: Vec::new(),
            data_points: Vec::new(),
            telepads: Vec::new(),
            buttons: Vec::new(),
            gates: Vec::new(),
        };
        assert(r@.password_gates =~= Seq::empty());
        assert(r@.data_points =~= Seq::empty());
        assert(r@.buttons =~= Seq::empty());
        r
    }

    pub fn get_player(&mut self) -> (r: Player)
        ensures
            r@ == old(self)@.player,
            final(self)@ == old(self)@,
    {
        self.player.duplicate()
    }
}

} // verus!
