use elara_lib::actors::{Action, Bounds, MoveDirection, PlayerChannelActor, TurnDirection};
use elara_lib::constants::{ERR_OUT_OF_ENERGY, MAX_ENERGY};
use elara_lib::levels::math_expressions::MathExpressions;
use elara_lib::levels::{Level, Level1, Level2, Outcome};
use elara_lib::simulation::Simulation;
use elara_lib::world::{PlayerAnimState, Pos};

fn new_sim<L: Level>(level: L) -> Simulation<L> {
    Simulation::new(PlayerChannelActor::new(Bounds::default()), level)
}

fn step_with<L: Level>(sim: &mut Simulation<L>, action: Action) -> Outcome {
    sim.send_action(action);
    sim.step_forward()
}

#[test]
fn step_forward_appends_one_state() {
    let mut sim = new_sim(Level1 {});
    assert_eq!(sim.get_history().len(), 1);
    assert_eq!(sim.curr_state().player.pos, Pos::new(0, 0));

    let outcome = step_with(&mut sim, Action::Move(MoveDirection::Forward));
    assert_eq!(outcome, Outcome::Continue);
    assert_eq!(sim.get_history().len(), 2);
    let state = sim.curr_state();
    assert_eq!(state.player.pos, Pos::new(1, 0));
    assert_eq!(state.player.energy, MAX_ENERGY - 1);
    assert_eq!(state.player.anim_state, PlayerAnimState::Moving);
    // The first state of the history is untouched.
    assert_eq!(sim.get_history()[0].player.pos, Pos::new(0, 0));
}

#[test]
fn step_without_action_waits() {
    let mut sim = new_sim(Level1 {});
    assert_eq!(sim.step_forward(), Outcome::Continue);
    assert_eq!(sim.get_history().len(), 2);
    assert_eq!(sim.curr_state().player.pos, Pos::new(0, 0));
    assert_eq!(sim.curr_state().player.energy, MAX_ENERGY);
}

#[test]
fn success_is_final() {
    let mut sim = new_sim(Level1 {});
    for _ in 0..3 {
        assert_eq!(step_with(&mut sim, Action::Move(MoveDirection::Forward)), Outcome::Continue);
    }
    assert_eq!(step_with(&mut sim, Action::Turn(TurnDirection::Right)), Outcome::Continue);
    assert_eq!(step_with(&mut sim, Action::Move(MoveDirection::Forward)), Outcome::Continue);
    assert_eq!(step_with(&mut sim, Action::Move(MoveDirection::Forward)), Outcome::Continue);
    assert_eq!(step_with(&mut sim, Action::Move(MoveDirection::Forward)), Outcome::Success);
    assert_eq!(sim.curr_state().player.pos, Pos::new(3, 3));
    assert_eq!(sim.get_history().len(), 8);

    // Further steps change nothing and report the same outcome.
    assert_eq!(sim.step_forward(), Outcome::Success);
    assert_eq!(step_with(&mut sim, Action::Move(MoveDirection::Backward)), Outcome::Success);
    assert_eq!(sim.get_history().len(), 8);
    assert_eq!(sim.last_outcome(), Outcome::Success);
    assert_eq!(sim.curr_state().player.pos, Pos::new(3, 3));
}

#[test]
fn failure_when_out_of_energy() {
    let mut sim = new_sim(Level2 {});
    for _ in 0..4 {
        assert_eq!(step_with(&mut sim, Action::Move(MoveDirection::Forward)), Outcome::Continue);
    }
    assert_eq!(sim.curr_state().player.pos, Pos::new(4, 0));
    // (5, 0) is an obstacle: the last energy is spent on a bump.
    let outcome = step_with(&mut sim, Action::Move(MoveDirection::Forward));
    assert_eq!(outcome, Outcome::Failure(String::from(ERR_OUT_OF_ENERGY)));
    assert_eq!(sim.curr_state().player.pos, Pos::new(4, 0));
    assert_eq!(sim.curr_state().player.energy, 0);
    assert_eq!(sim.get_history().len(), 6);
    assert_eq!(sim.step_forward(), Outcome::Failure(String::from(ERR_OUT_OF_ENERGY)));
    assert_eq!(sim.get_history().len(), 6);
}

#[test]
fn energy_cell_adds_bonus_once() {
    let mut sim = new_sim(Level2 {});
    step_with(&mut sim, Action::Turn(TurnDirection::Right));
    for _ in 0..4 {
        step_with(&mut sim, Action::Move(MoveDirection::Forward));
    }
    assert_eq!(sim.curr_state().player.energy, 1);
    // The fifth move spends the last energy and lands on the cell at (0, 5).
    assert_eq!(step_with(&mut sim, Action::Move(MoveDirection::Forward)), Outcome::Continue);
    let state = sim.curr_state();
    assert_eq!(state.player.pos, Pos::new(0, 5));
    assert_eq!(state.player.energy, 10);
    assert_eq!(state.player.total_energy_used, 5);
    assert!(state.energy_cells[0].collected);

    // Staying on the collected cell adds nothing.
    step_with(&mut sim, Action::Wait);
    assert_eq!(sim.curr_state().player.energy, 10);
}

#[test]
fn no_objective_level_keeps_running() {
    let mut sim = new_sim(MathExpressions {});
    let outcome = step_with(&mut sim, Action::Say(String::from("4")));
    assert_eq!(outcome, Outcome::NoObjective);
    assert_eq!(sim.curr_state().player.message, "4");
    assert_eq!(sim.step_forward(), Outcome::NoObjective);
    assert_eq!(sim.last_outcome(), Outcome::NoObjective);
    assert_eq!(sim.get_history().len(), 3);
    // The message lasts one tick.
    assert_eq!(sim.curr_state().player.message, "");
}

#[test]
fn load_level_starts_over() {
    let mut sim = new_sim(Level2 {});
    for _ in 0..5 {
        step_with(&mut sim, Action::Move(MoveDirection::Forward));
    }
    assert!(sim.last_outcome().is_terminal());
    sim.load_level(Level2 {}, 0);
    assert_eq!(sim.get_history().len(), 1);
    assert_eq!(sim.last_outcome(), Outcome::Continue);
    assert_eq!(sim.curr_state().player.pos, Pos::new(0, 0));
    assert_eq!(sim.curr_state().player.energy, 5);
}

#[test]
fn reset_starts_over() {
    let mut sim = new_sim(Level1 {});
    step_with(&mut sim, Action::Move(MoveDirection::Forward));
    step_with(&mut sim, Action::Move(MoveDirection::Forward));
    sim.reset();
    assert_eq!(sim.get_history().len(), 1);
    assert_eq!(sim.curr_state().player.pos, Pos::new(0, 0));
    assert_eq!(sim.last_outcome(), Outcome::Continue);
}
