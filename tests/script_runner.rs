use elara_lib::actors::{Action, Bounds, MoveDirection, PlayerChannelActor, TurnDirection};
use elara_lib::levels::gate_and_terminal_two::GateAndTerminalPartTwo;
use elara_lib::levels::{Level, Level1, Outcome};
use elara_lib::script_runner::{ScriptRunner, SourcePos};
use elara_lib::simulation::Simulation;
use elara_lib::world::{Pos, TermData};

fn runner<L: Level + Copy>(level: L) -> ScriptRunner<L> {
    let mut r = ScriptRunner::new(Simulation::new(PlayerChannelActor::new(Bounds::default()), level));
    r.load_level(level, 0);
    r
}

fn at(line: usize) -> Option<SourcePos> {
    Some(SourcePos { line, column: 1 })
}

#[test]
fn trace_is_aligned_with_history() {
    let mut r = runner(Level1 {});
    r.run_primitive(Action::Move(MoveDirection::Forward), 2, at(1));
    r.run_primitive(Action::Turn(TurnDirection::Right), 1, at(2));
    r.run_primitive(Action::Wait, 3, at(3));
    let result = r.result();
    assert_eq!(result.states.len(), 7);
    assert_eq!(result.positions.len(), 7);
    assert_eq!(result.positions, vec![None, at(1), at(1), at(2), at(3), at(3), at(3)]);
    assert_eq!(result.outcome, Outcome::Continue);
    assert_eq!(result.states[2].player.pos, Pos::new(2, 0));
}

#[test]
fn primitive_stops_once_the_run_ends() {
    let mut r = runner(Level1 {});
    r.run_primitive(Action::Move(MoveDirection::Forward), 3, at(1));
    r.run_primitive(Action::Turn(TurnDirection::Right), 1, at(2));
    assert!(!r.has_ended());
    r.run_primitive(Action::Move(MoveDirection::Forward), 10, at(3));
    assert!(r.has_ended());
    let result = r.result();
    assert_eq!(result.outcome, Outcome::Success);
    assert_eq!(result.states.len(), 8);
    assert_eq!(result.positions.len(), 8);
    assert_eq!(result.positions[7], at(3));
    // Nothing more happens after the end.
    r.run_primitive(Action::Wait, 4, at(4));
    assert_eq!(r.result().states.len(), 8);
    assert_eq!(r.result().positions.len(), 8);
}

#[test]
fn non_positive_count_takes_no_step() {
    let mut r = runner(Level1 {});
    r.run_primitive(Action::Move(MoveDirection::Forward), 0, at(1));
    r.run_primitive(Action::Move(MoveDirection::Forward), -3, at(2));
    let result = r.result();
    assert_eq!(result.states.len(), 1);
    assert_eq!(result.positions, vec![None]);
    assert_eq!(r.position(), Pos::new(0, 0));
}

#[test]
fn position_follows_the_player() {
    let mut r = runner(Level1 {});
    r.run_primitive(Action::Move(MoveDirection::Forward), 2, at(1));
    assert_eq!(r.position(), Pos::new(2, 0));
}

#[test]
fn load_level_clears_trace() {
    let mut r = runner(Level1 {});
    r.run_primitive(Action::Move(MoveDirection::Forward), 2, at(1));
    r.load_level(Level1 {}, 0);
    let result = r.result();
    assert_eq!(result.states.len(), 1);
    assert_eq!(result.positions, vec![None]);
}

#[test]
fn read_data_then_open_gate() {
    let mut r = runner(GateAndTerminalPartTwo {});
    assert!(r.adjacent_data().is_none());
    r.run_primitive(Action::Move(MoveDirection::Forward), 1, at(1));
    r.run_primitive(Action::ReadData, 1, at(2));
    let password = match r.adjacent_data() {
        Some(TermData::String(s)) => s,
        _ => panic!("expected a data point next to the rover"),
    };
    assert_eq!(password, "hopper");
    assert!(r.result().states[2].data_points[0].reading);
    r.run_primitive(Action::Move(MoveDirection::Forward), 1, at(3));
    r.run_primitive(Action::Say(password), 1, at(4));
    assert!(r.result().states[4].password_gates[0].open);
    r.run_primitive(Action::Turn(TurnDirection::Left), 1, at(5));
    r.run_primitive(Action::Move(MoveDirection::Forward), 3, at(6));
    let result = r.result();
    assert_eq!(result.outcome, Outcome::Success);
    assert_eq!(result.states.len(), result.positions.len());
    assert_eq!(r.position(), Pos::new(9, 4));
}
