use elara_lib::constants::builtin_functions;
use elara_lib::levels::Outcome;
use elara_lib::script_runner::missing_terminator_line;
use elara_lib::world::{DataPoint, EnergyCell, FuelSpot, Pos, TermData};

#[test]
fn builtin_function_table() {
    let table = builtin_functions();
    assert_eq!(table.len(), 16);
    assert_eq!(table[0].name, "turn_right");
    assert!(table[0].arg_types.is_empty());
    let add = table.iter().find(|f| f.name == "add").unwrap();
    assert_eq!(add.arg_types, &["number", "number"]);
    let push = table.iter().find(|f| f.name == "push").unwrap();
    assert_eq!(push.arg_types, &["array", "any"]);
    assert_eq!(table[15].name, "press_button");
}

#[test]
fn missing_terminator_moves_back_one_line() {
    assert_eq!(missing_terminator_line(5), 4);
    assert_eq!(missing_terminator_line(2), 1);
    assert_eq!(missing_terminator_line(1), 1);
    assert_eq!(missing_terminator_line(0), 0);
}

#[test]
fn terminal_outcomes() {
    assert!(Outcome::Success.is_terminal());
    assert!(Outcome::Failure(String::from("x")).is_terminal());
    assert!(!Outcome::Continue.is_terminal());
    assert!(!Outcome::NoObjective.is_terminal());
    assert_eq!(Outcome::Failure(String::from("x")).clone(), Outcome::Failure(String::from("x")));
}

#[test]
fn payloads_and_old_names() {
    match TermData::from(String::from("hopper")) {
        TermData::String(s) => assert_eq!(s, "hopper"),
        _ => panic!("expected a string payload"),
    }
    match TermData::from(vec![TermData::from(String::from("a"))]) {
        TermData::Array(v) => assert_eq!(v.len(), 1),
        _ => panic!("expected an array payload"),
    }
    let point = DataPoint::new(2, 3, String::from("x"));
    assert_eq!(point.pos, Pos::new(2, 3));
    assert!(!point.reading);
    let cell: FuelSpot = FuelSpot::new(4, 5);
    assert_eq!(cell, EnergyCell { pos: Pos::new(4, 5), collected: false });
}
