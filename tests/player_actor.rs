use elara_lib::actors::{Action, Bounds, MoveDirection, PlayerChannelActor, TurnDirection};
use elara_lib::constants::MAX_ENERGY;
use elara_lib::simulation::Actor;
use elara_lib::world::{
    Button, ButtonConnection, DataPoint, Gate, GateVariant, Obstacle, Orientation, PasswordGate,
    Player, PlayerAnimState, Pos, State, TeleAnimData, Telepad,
};

#[test]
fn basic_movement() {
    let bounds = Bounds {
        min_x: 0,
        max_x: 10,
        min_y: 0,
        max_y: 10,
    };
    let mut actor = PlayerChannelActor::new(bounds);
    let mut state = State::new();
    state.player = Player::new(1, 1, MAX_ENERGY, Orientation::Right);

    actor.send(Action::Move(MoveDirection::Forward));
    let new_state = actor.apply(state.clone());
    assert_eq!(
        new_state.player,
        Player {
            pos: Pos::new(2, 1),
            energy: state.player.energy - 1,
            message: String::from(""),
            anim_state: PlayerAnimState::Moving,
            facing: Orientation::Right,
            total_energy_used: 1,
        }
    );
    state = new_state;

    actor.send(Action::Turn(TurnDirection::Right));
    let new_state = actor.apply(state.clone());
    assert_eq!(
        new_state.player,
        Player {
            pos: Pos::new(2, 1),
            energy: state.player.energy,
            message: String::from(""),
            anim_state: PlayerAnimState::Turning,
            facing: Orientation::Down,
            total_energy_used: 1,
        }
    );
    state = new_state;

    actor.send(Action::Move(MoveDirection::Forward));
    let new_state = actor.apply(state.clone());
    assert_eq!(
        new_state.player,
        Player {
            pos: Pos::new(2, 2),
            energy: state.player.energy - 1,
            message: String::from(""),
            anim_state: PlayerAnimState::Moving,
            facing: Orientation::Down,
            total_energy_used: 2,
        }
    );
}

#[test]
fn try_to_move() {
    let bounds = Bounds {
        min_x: 0,
        max_x: 10,
        min_y: 0,
        max_y: 10,
    };
    let actor = PlayerChannelActor::new(bounds);
    let mut state = State::new();
    state.player = Player::new(1, 1, MAX_ENERGY, Orientation::Right);

    // Simple case where no obstacles are in the way and we are not
    // outside the bounds.
    state.player.facing = Orientation::Up;
    assert_eq!(
        actor.try_to_move(&state, MoveDirection::Forward).0,
        Pos::new(1, 0)
    );
    assert_eq!(
        actor.try_to_move(&state, MoveDirection::Backward).0,
        Pos::new(1, 2)
    );
    state.player.facing = Orientation::Down;
    assert_eq!(
        actor.try_to_move(&state, MoveDirection::Forward).0,
        Pos::new(1, 2)
    );
    assert_eq!(
        actor.try_to_move(&state, MoveDirection::Backward).0,
        Pos::new(1, 0)
    );
    state.player.facing = Orientation::Left;
    assert_eq!(
        actor.try_to_move(&state, MoveDirection::Forward).0,
        Pos::new(0, 1)
    );
    assert_eq!(
        actor.try_to_move(&state, MoveDirection::Backward).0,
        Pos::new(2, 1)
    );
    state.player.facing = Orientation::Right;
    assert_eq!(
        actor.try_to_move(&state, MoveDirection::Forward).0,
        Pos::new(2, 1)
    );
    assert_eq!(
        actor.try_to_move(&state, MoveDirection::Backward).0,
        Pos::new(0, 1)
    );
}

#[test]
fn try_to_move_with_bounds() {
    let bounds = Bounds {
        min_x: 0,
        max_x: 2,
        min_y: 0,
        max_y: 2,
    };
    let actor = PlayerChannelActor::new(bounds);
    let mut state = State::new();
    state.player = Player::new(1, 1, MAX_ENERGY, Orientation::Right);

    // We can't move outside the bounds.
    state.player.pos = Pos::new(0, 0);
    state.player.facing = Orientation::Up;
    assert_eq!(
        actor.try_to_move(&state, MoveDirection::Forward).0,
        Pos::new(0, 0)
    );
    state.player.facing = Orientation::Down;
    assert_eq!(
        actor.try_to_move(&state, MoveDirection::Backward).0,
        Pos::new(0, 0)
    );
    state.player.facing = Orientation::Left;
    assert_eq!(
        actor.try_to_move(&state, MoveDirection::Forward).0,
        Pos::new(0, 0)
    );
    state.player.facing = Orientation::Right;
    assert_eq!(
        actor.try_to_move(&state, MoveDirection::Backward).0,
        Pos::new(0, 0)
    );
    state.player.pos = Pos::new(2, 2);
    state.player.facing = Orientation::Down;
    assert_eq!(
        actor.try_to_move(&state, MoveDirection::Forward).0,
        Pos::new(2, 2)
    );
    state.player.facing = Orientation::Up;
    assert_eq!(
        actor.try_to_move(&state, MoveDirection::Backward).0,
        Pos::new(2, 2)
    );
    state.player.facing = Orientation::Right;
    assert_eq!(
        actor.try_to_move(&state, MoveDirection::Forward).0,
        Pos::new(2, 2)
    );
    state.player.facing = Orientation::Left;
    assert_eq!(
        actor.try_to_move(&state, MoveDirection::Backward).0,
        Pos::new(2, 2)
    );
}

#[test]
fn try_to_move_with_obstacles() {
    let bounds = Bounds {
        min_x: 0,
        max_x: 10,
        min_y: 0,
        max_y: 10,
    };
    let actor = PlayerChannelActor::new(bounds);
    let mut state = State::new();
    state.player = Player::new(1, 1, MAX_ENERGY, Orientation::Right);
    state.obstacles = vec![
        Obstacle::new(0, 0),
        Obstacle::new(1, 0),
        Obstacle::new(2, 0),
        Obstacle::new(2, 1),
        Obstacle::new(2, 2),
        Obstacle::new(1, 2),
        Obstacle::new(0, 2),
        Obstacle::new(0, 1),
    ];

    // We can't move past obstacles.
    state.player.facing = Orientation::Up;
    assert_eq!(
        actor.try_to_move(&state, MoveDirection::Forward).0,
        Pos::new(1, 1)
    );
    assert_eq!(
        actor.try_to_move(&state, MoveDirection::Backward).0,
        Pos::new(1, 1)
    );
    state.player.facing = Orientation::Left;
    assert_eq!(
        actor.try_to_move(&state, MoveDirection::Forward).0,
        Pos::new(1, 1)
    );
    assert_eq!(
        actor.try_to_move(&state, MoveDirection::Backward).0,
        Pos::new(1, 1)
    );
    state.player.facing = Orientation::Down;
    assert_eq!(
        actor.try_to_move(&state, MoveDirection::Forward).0,
        Pos::new(1, 1)
    );
    assert_eq!(
        actor.try_to_move(&state, MoveDirection::Backward).0,
        Pos::new(1, 1)
    );
    state.player.facing = Orientation::Right;
    assert_eq!(
        actor.try_to_move(&state, MoveDirection::Forward).0,
        Pos::new(1, 1)
    );
    assert_eq!(
        actor.try_to_move(&state, MoveDirection::Backward).0,
        Pos::new(1, 1)
    );
}

/// Helper function that asserts that the player can move in any direction.
fn assert_player_can_move_in_any_direction(state: &mut State, actor: &PlayerChannelActor) {
    state.player.facing = Orientation::Up;
    assert_eq!(
        actor.try_to_move(&state, MoveDirection::Forward).0,
        Pos::new(1, 0)
    );
    assert_eq!(
        actor.try_to_move(&state, MoveDirection::Backward).0,
        Pos::new(1, 2)
    );
    state.player.facing = Orientation::Down;
    assert_eq!(
        actor.try_to_move(&state, MoveDirection::Forward).0,
        Pos::new(1, 2)
    );
    assert_eq!(
        actor.try_to_move(&state, MoveDirection::Backward).0,
        Pos::new(1, 0)
    );
    state.player.facing = Orientation::Left;
    assert_eq!(
        actor.try_to_move(&state, MoveDirection::Forward).0,
        Pos::new(0, 1)
    );
    assert_eq!(
        actor.try_to_move(&state, MoveDirection::Backward).0,
        Pos::new(2, 1)
    );
    state.player.facing = Orientation::Right;
    assert_eq!(
        actor.try_to_move(&state, MoveDirection::Forward).0,
        Pos::new(2, 1)
    );
    assert_eq!(
        actor.try_to_move(&state, MoveDirection::Backward).0,
        Pos::new(0, 1)
    );
}

/// Helper function that asserts the player *cannot* move in any direction.
fn assert_player_cannot_move_in_any_direction(state: &mut State, actor: &PlayerChannelActor) {
    state.player.facing = Orientation::Up;
    assert_eq!(
        actor.try_to_move(&state, MoveDirection::Forward).0,
        Pos::new(1, 1)
    );
    assert_eq!(
        actor.try_to_move(&state, MoveDirection::Backward).0,
        Pos::new(1, 1)
    );
    state.player.facing = Orientation::Down;
    assert_eq!(
        actor.try_to_move(&state, MoveDirection::Forward).0,
        Pos::new(1, 1)
    );
    assert_eq!(
        actor.try_to_move(&state, MoveDirection::Backward).0,
        Pos::new(1, 1)
    );
    state.player.facing = Orientation::Left;
    assert_eq!(
        actor.try_to_move(&state, MoveDirection::Forward).0,
        Pos::new(1, 1)
    );
    assert_eq!(
        actor.try_to_move(&state, MoveDirection::Backward).0,
        Pos::new(1, 1)
    );
    state.player.facing = Orientation::Right;
    assert_eq!(
        actor.try_to_move(&state, MoveDirection::Forward).0,
        Pos::new(1, 1)
    );
    assert_eq!(
        actor.try_to_move(&state, MoveDirection::Backward).0,
        Pos::new(1, 1)
    );
}

#[test]
fn try_to_move_with_closed_gates() {
    let bounds = Bounds {
        min_x: 0,
        max_x: 10,
        min_y: 0,
        max_y: 10,
    };
    let actor = PlayerChannelActor::new(bounds);
    let mut state = State::new();
    state.player = Player::new(1, 1, MAX_ENERGY, Orientation::Right);
    state.gates = vec![
        Gate::new(0, 0, false, GateVariant::NESW),
        Gate::new(1, 0, false, GateVariant::NESW),
        Gate::new(2, 0, false, GateVariant::NESW),
        Gate::new(2, 1, false, GateVariant::NESW),
        Gate::new(2, 2, false, GateVariant::NESW),
        Gate::new(1, 2, false, GateVariant::NESW),
        Gate::new(0, 2, false, GateVariant::NESW),
        Gate::new(0, 1, false, GateVariant::NESW),
    ];

    // We should not be able to move past closed gates.
    assert_player_cannot_move_in_any_direction(&mut state, &actor)
}

#[test]
fn try_to_move_with_open_gates() {
    let bounds = Bounds {
        min_x: 0,
        max_x: 10,
        min_y: 0,
        max_y: 10,
    };
    let actor = PlayerChannelActor::new(bounds);
    let mut state = State::new();
    state.player = Player::new(1, 1, MAX_ENERGY, Orientation::Right);
    state.gates = vec![
        Gate::new(0, 0, true, GateVariant::NWSE),
        Gate::new(1, 0, true, GateVariant::NESW),
        Gate::new(2, 0, true, GateVariant::NWSE),
        Gate::new(2, 1, true, GateVariant::NESW),
        Gate::new(2, 2, true, GateVariant::NWSE),
        Gate::new(1, 2, true, GateVariant::NESW),
        Gate::new(0, 2, true, GateVariant::NWSE),
        Gate::new(0, 1, true, GateVariant::NESW),
    ];

    // We should be able to move past open gates.
    assert_player_can_move_in_any_direction(&mut state, &actor)
}

#[test]
fn try_to_move_with_closed_password_gates() {
    let bounds = Bounds {
        min_x: 0,
        max_x: 10,
        min_y: 0,
        max_y: 10,
    };
    let actor = PlayerChannelActor::new(bounds);
    let mut state = State::new();
    state.player = Player::new(1, 1, MAX_ENERGY, Orientation::Right);
    state.password_gates = vec![
        PasswordGate::new(0, 0, "lovelace".to_string(), false, GateVariant::NESW),
        PasswordGate::new(1, 0, "lovelace".to_string(), false, GateVariant::NESW),
        PasswordGate::new(2, 0, "lovelace".to_string(), false, GateVariant::NESW),
        PasswordGate::new(2, 1, "lovelace".to_string(), false, GateVariant::NESW),
        PasswordGate::new(2, 2, "lovelace".to_string(), false, GateVariant::NESW),
        PasswordGate::new(1, 2, "lovelace".to_string(), false, GateVariant::NESW),
        PasswordGate::new(0, 2, "lovelace".to_string(), false, GateVariant::NESW),
        PasswordGate::new(0, 1, "lovelace".to_string(), false, GateVariant::NESW),
    ];

    // We can't move past closed password gates.
    assert_player_cannot_move_in_any_direction(&mut state, &actor)
}

#[test]
fn try_to_move_with_open_password_gates() {
    let bounds = Bounds {
        min_x: 0,
        max_x: 10,
        min_y: 0,
        max_y: 10,
    };
    let actor = PlayerChannelActor::new(bounds);
    let mut state = State::new();
    state.player = Player::new(1, 1, MAX_ENERGY, Orientation::Right);
    state.password_gates = vec![
        PasswordGate::new(0, 0, "lovelace".to_string(), true, GateVariant::NWSE),
        PasswordGate::new(1, 0, "lovelace".to_string(), true, GateVariant::NESW),
        PasswordGate::new(2, 0, "lovelace".to_string(), true, GateVariant::NWSE),
        PasswordGate::new(2, 1, "lovelace".to_string(), true, GateVariant::NESW),
        PasswordGate::new(2, 2, "lovelace".to_string(), true, GateVariant::NWSE),
        PasswordGate::new(1, 2, "lovelace".to_string(), true, GateVariant::NESW),
        PasswordGate::new(0, 2, "lovelace".to_string(), true, GateVariant::NWSE),
        PasswordGate::new(0, 1, "lovelace".to_string(), true, GateVariant::NESW),
    ];

    // We *can* move past open password gates.
    assert_player_can_move_in_any_direction(&mut state, &actor)
}

#[test]
fn try_to_move_with_buttons() {
    let bounds = Bounds {
        min_x: 0,
        max_x: 10,
        min_y: 0,
        max_y: 10,
    };
    let actor = PlayerChannelActor::new(bounds);
    let mut state = State::new();
    state.player = Player::new(1, 1, MAX_ENERGY, Orientation::Right);
    state.buttons = vec![
        Button::new(0, 0, ButtonConnection::Unwired),
        Button::new(1, 0, ButtonConnection::Unwired),
        Button::new(2, 0, ButtonConnection::Unwired),
        Button::new(2, 1, ButtonConnection::Unwired),
        Button::new(2, 2, ButtonConnection::Unwired),
        Button::new(1, 2, ButtonConnection::Unwired),
        Button::new(0, 2, ButtonConnection::Unwired),
        Button::new(0, 1, ButtonConnection::Unwired),
    ];
    assert_player_cannot_move_in_any_direction(&mut state, &actor)
}

#[test]
fn try_to_move_with_data_points() {
    let bounds = Bounds {
        min_x: 0,
        max_x: 10,
        min_y: 0,
        max_y: 10,
    };
    let actor = PlayerChannelActor::new(bounds);
    let mut state = State::new();
    state.player = Player::new(1, 1, MAX_ENERGY, Orientation::Right);
    state.data_points = vec![
        DataPoint::new(0, 0, "apples".into()),
        DataPoint::new(1, 0, "apples".into()),
        DataPoint::new(2, 0, "apples".into()),
        DataPoint::new(2, 1, "apples".into()),
        DataPoint::new(2, 2, "apples".into()),
        DataPoint::new(1, 2, "apples".into()),
        DataPoint::new(0, 2, "apples".into()),
        DataPoint::new(0, 1, "apples".into()),
    ];
    assert_player_cannot_move_in_any_direction(&mut state, &actor)
}

#[test]
fn try_to_move_with_telepad() {
    let bounds = Bounds {
        min_x: 0,
        max_x: 10,
        min_y: 0,
        max_y: 10,
    };
    let actor = PlayerChannelActor::new(bounds);
    let mut state = State::new();
    state.player = Player::new(1, 1, MAX_ENERGY, Orientation::Right);
    state.telepads = vec![Telepad::new((2, 1), (4, 4), Orientation::Left)];

    // Should teleport to end_pos and be facing the new direction.
    assert_eq!(
        actor.try_to_move(&state, MoveDirection::Forward),
        (
            Pos::new(4, 4),
            Orientation::Left,
            PlayerAnimState::Teleporting(TeleAnimData {
                start_pos: Pos::new(1, 1),
                enter_pos: Pos::new(2, 1),
                exit_pos: Pos::new(4, 4),
            })
        )
    );
}

#[test]
fn say_affects_password_gates() {
    let bounds = Bounds {
        min_x: 0,
        max_x: 10,
        min_y: 0,
        max_y: 10,
    };
    let mut actor = PlayerChannelActor::new(bounds);
    let mut state = State::new();
    state.player = Player::new(1, 1, MAX_ENERGY, Orientation::Right);
    state.password_gates = vec![PasswordGate::new(
        0,
        1,
        "password".into(),
        false,
        GateVariant::NESW,
    )];

    // Say the wrong password.
    actor.send(Action::Say("wrong password".to_string()));
    let new_state = actor.apply(state.clone());

    // The PasswordGate should be updated to indicate the wrong password was said.
    assert_eq!(
        new_state.password_gates[0],
        PasswordGate {
            pos: Pos::new(0, 1),
            password: "password".to_string(),
            open: false,
            variant: GateVariant::NESW,
            additional_info: String::new(),
            wrong_password: true,
        }
    );

    // Take any other action (e.g. turn)
    actor.send(Action::Turn(TurnDirection::Right));
    let new_state = actor.apply(new_state.clone());

    // The wrong_password field should now be set to false, but that gate
    // should still be closed.
    assert_eq!(
        new_state.password_gates[0],
        PasswordGate {
            pos: Pos::new(0, 1),
            password: "password".to_string(),
            open: false,
            variant: GateVariant::NESW,
            additional_info: String::new(),
            wrong_password: false,
        }
    );

    // Say the correct password.
    actor.send(Action::Say("password".to_string()));
    let new_state = actor.apply(new_state.clone());

    // The PasswordGate should be updated to indicate the wrong password was said.
    assert_eq!(
        new_state.password_gates[0],
        PasswordGate {
            pos: Pos::new(0, 1),
            password: "password".to_string(),
            open: true,
            variant: GateVariant::NESW,
            additional_info: String::new(),
            wrong_password: false,
        }
    );
}
