use elara_lib::actors::{Action, Bounds, MoveDirection, PlayerChannelActor};
use elara_lib::constants::{ERR_DESTROYED_BY_ENEMY, MAX_ENERGY};
use elara_lib::levels::buttons_part_one::ButtonsPartOne;
use elara_lib::levels::loop_the_loop::LoopTheLoop;
use elara_lib::levels::loops_part_two::LoopsPartTwo;
use elara_lib::levels::math_expressions::MathExpressions;
use elara_lib::levels::{
    is_destroyed_by_enemy, no_objective_check_win, std_check_win, Level, Level0, Level1, Level3,
    Level4, Outcome,
};
use elara_lib::simulation::Simulation;
use elara_lib::state_maker::StateMaker;
use elara_lib::world::{EnergyCell, Enemy, Goal, Obstacle, Orientation, Player, Pos};

#[test]
fn level_data() {
    assert_eq!(Level1 {}.name(), "First Steps");
    assert_eq!(Level1 {}.initial_states().len(), 1);
    assert_eq!(Level1 {}.initial_states()[0].obstacles.len(), 9);
    assert_eq!(Level3 {}.initial_states()[0].obstacles.len(), 28);
    assert_eq!(Level4 {}.initial_states()[0].enemies[0].pos, Pos::new(9, 7));
    assert_eq!(LoopTheLoop {}.initial_states()[0].player.energy, 5);
    assert_eq!(LoopsPartTwo {}.initial_states()[0].goals[0].pos, Pos::new(10, 5));
    assert_eq!(MathExpressions {}.name(), "Mathematical!");
    assert_eq!(Level0 {}.initial_states()[0].player.energy, MAX_ENERGY);
    assert_eq!(
        Level1 {}.bounds(),
        Bounds { min_x: 0, max_x: 11, min_y: 0, max_y: 7 }
    );
}

#[test]
fn standard_win_check() {
    let mut maker = StateMaker::new();
    maker
        .with_player(Player::new(2, 2, 3, Orientation::Up))
        .with_goals(vec![Goal { pos: Pos::new(2, 2) }]);
    assert_eq!(std_check_win(&maker.build()), Outcome::Success);
    maker.with_goals(vec![Goal { pos: Pos::new(5, 5) }]);
    assert_eq!(std_check_win(&maker.build()), Outcome::Continue);
    maker.with_player(Player::new(2, 2, 0, Orientation::Up));
    assert_eq!(
        std_check_win(&maker.build()),
        Outcome::Failure(String::from("G.R.O.V.E.R. ran out of energy!"))
    );
    assert_eq!(no_objective_check_win(&maker.build()), Outcome::NoObjective);
}

#[test]
fn enemy_on_the_player_loses() {
    let mut maker = StateMaker::new();
    maker
        .with_player(Player::new(3, 3, 8, Orientation::Up))
        .with_enemies(vec![Enemy::new(3, 3)])
        .with_goals(vec![Goal { pos: Pos::new(9, 5) }]);
    let state = maker.build();
    assert!(is_destroyed_by_enemy(&state));
    assert_eq!(
        Level4 {}.check_win(&state),
        Outcome::Failure(String::from(ERR_DESTROYED_BY_ENEMY))
    );
    maker.with_enemies(vec![Enemy::new(3, 4)]);
    assert!(!is_destroyed_by_enemy(&maker.build()));
    assert_eq!(Level4 {}.check_win(&maker.build()), Outcome::Continue);
}

#[test]
fn pressing_the_button_wins() {
    let mut sim = Simulation::new(PlayerChannelActor::new(Bounds::default()), ButtonsPartOne {});
    // Doing nothing does not win.
    assert_eq!(sim.last_outcome(), Outcome::Continue);
    for _ in 0..2 {
        sim.send_action(Action::Move(MoveDirection::Forward));
        assert_eq!(sim.step_forward(), Outcome::Continue);
    }
    assert_eq!(sim.curr_state().player.pos, Pos::new(6, 5));
    sim.send_action(Action::PressButton);
    assert_eq!(sim.step_forward(), Outcome::Success);
    assert!(sim.curr_state().buttons[0].currently_pressed);
}

#[test]
fn collecting_the_cell_wins_level_zero() {
    let mut maker = StateMaker::new();
    maker
        .with_player(Player::new(3, 3, 5, Orientation::Up))
        .with_energy_cells(vec![EnergyCell::new(3, 3)])
        .with_obstacles(vec![Obstacle::new(1, 1)]);
    assert_eq!(Level0 {}.check_win(&maker.build()), Outcome::Success);
    maker.with_player(Player::new(3, 2, 5, Orientation::Up));
    assert_eq!(Level0 {}.check_win(&maker.build()), Outcome::Continue);
}
