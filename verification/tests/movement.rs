use platformer::movement::{
    collect_intent, process_intent, update_grid_coords, ButtonState, MovementEasing,
    MovementIntent, TimedButtonInput, BASE_SPEED, COYOTE_TIME_MS,
};
use platformer::level::{GridCoords, LevelEntityLookup};
use platformer::physics::{
    ClosestHorizontalCollision, Gravity, Grounded, HorizontalObstacleDetection, Transform,
    Velocity,
};

fn profile() -> Gravity {
    // 1000 * 1.5 / 0.3 = 5000 milli per step; min ratio 0.16 -> 2000.
    let g = Gravity::new(240, 1500, 300, 32_000);
    assert_eq!(g.jump_velocity(), 5_000);
    assert_eq!(g.min_jump_velocity(), 2_000);
    g
}

fn press(state: ButtonState, last_pressed: Option<u64>) -> MovementIntent {
    MovementIntent {
        horizontal_movement: 0,
        jump: TimedButtonInput {
            state,
            last_pressed,
        },
    }
}

#[test]
fn simple_jump_from_ground() {
    let g = profile();
    let mut velocity = Velocity::new(0, 0);
    let mut intent = press(ButtonState::JustPressed, Some(0));
    let mut grounded = Grounded::Grounded;
    process_intent(&mut velocity, &g, &mut intent, &mut grounded, None, None);
    assert_eq!(velocity.y, 5_000);
    assert_eq!(
        grounded,
        Grounded::Airborne {
            duration_us: 0,
            jump_count: 1,
            sliding: false
        }
    );
    // The buffered press was consumed.
    assert_eq!(intent.jump.last_pressed, None);
}

#[test]
fn jump_buffer_boundaries() {
    let g = profile();

    // A press recorded 79 ms ago is honored while grounded.
    let mut velocity = Velocity::new(0, 0);
    let mut intent = press(ButtonState::Pressed, Some(79_000));
    let mut grounded = Grounded::Grounded;
    process_intent(&mut velocity, &g, &mut intent, &mut grounded, None, None);
    assert_eq!(velocity.y, 5_000);
    assert!(grounded.is_airborne());

    // At 81 ms the buffer has lapsed: nothing happens.
    let mut velocity = Velocity::new(0, 0);
    let mut intent = press(ButtonState::Pressed, Some(81_000));
    let mut grounded = Grounded::Grounded;
    process_intent(&mut velocity, &g, &mut intent, &mut grounded, None, None);
    assert_eq!(velocity.y, 0);
    assert_eq!(grounded, Grounded::Grounded);
    assert_eq!(intent.jump.last_pressed, Some(81_000));
}

#[test]
fn coyote_jump_spends_a_jump() {
    let g = profile();
    let mut velocity = Velocity::new(0, -100);
    let mut intent = press(ButtonState::JustPressed, Some(0));
    let mut grounded = Grounded::Airborne {
        duration_us: 89_000,
        jump_count: 0,
        sliding: false,
    };
    process_intent(&mut velocity, &g, &mut intent, &mut grounded, None, None);
    assert_eq!(velocity.y, 5_000);
    assert_eq!(
        grounded,
        Grounded::Airborne {
            duration_us: 89_000,
            jump_count: 1,
            sliding: false
        }
    );

    // Past the coyote window the jump is refused.
    let mut velocity = Velocity::new(0, -100);
    let mut intent = press(ButtonState::Pressed, Some(0));
    let mut grounded = Grounded::Airborne {
        duration_us: 91_000,
        jump_count: 0,
        sliding: false,
    };
    process_intent(&mut velocity, &g, &mut intent, &mut grounded, None, None);
    assert_eq!(velocity.y, -100);
    assert_eq!(grounded.can_jump(1, COYOTE_TIME_MS), false);
}

#[test]
fn wall_jump_away_from_wall() {
    let g = profile();
    let mut velocity = Velocity::new(0, 0);
    let mut intent = press(ButtonState::JustPressed, Some(0));
    let mut grounded = Grounded::airborne(0);
    let det = HorizontalObstacleDetection(Some(ClosestHorizontalCollision::Right(100)));
    process_intent(&mut velocity, &g, &mut intent, &mut grounded, None, Some(det));
    // Not pushing into the wall: 1.8 x 150 away from it, 4.0 up.
    assert_eq!(velocity, Velocity::new(-270_000, 4_000));
    // A wall jump does not spend a jump.
    assert_eq!(
        grounded,
        Grounded::Airborne {
            duration_us: 0,
            jump_count: 0,
            sliding: false
        }
    );
}

#[test]
fn wall_jump_into_wall() {
    let g = profile();
    let mut velocity = Velocity::new(0, 0);
    let mut intent = MovementIntent {
        horizontal_movement: 1_000,
        jump: TimedButtonInput {
            state: ButtonState::JustPressed,
            last_pressed: Some(0),
        },
    };
    let mut grounded = Grounded::airborne(0);
    let det = HorizontalObstacleDetection(Some(ClosestHorizontalCollision::Right(100)));
    process_intent(&mut velocity, &g, &mut intent, &mut grounded, None, Some(det));
    // Pushing into the wall: 1.5 x 150 away, 4.5 up.
    assert_eq!(velocity, Velocity::new(-225_000, 4_500));

    // Same on a left wall: pushed away to the right.
    let mut velocity = Velocity::new(0, 0);
    let mut intent = MovementIntent {
        horizontal_movement: -1_000,
        jump: TimedButtonInput {
            state: ButtonState::JustPressed,
            last_pressed: Some(0),
        },
    };
    let mut grounded = Grounded::airborne(0);
    let det = HorizontalObstacleDetection(Some(ClosestHorizontalCollision::Left(100)));
    process_intent(&mut velocity, &g, &mut intent, &mut grounded, None, Some(det));
    assert_eq!(velocity, Velocity::new(225_000, 4_500));
}

#[test]
fn early_release_shortens_jump() {
    let g = profile();
    let mut velocity = Velocity::new(0, 5_000);
    let mut intent = press(ButtonState::JustReleased, None);
    let mut grounded = Grounded::airborne(1);
    process_intent(&mut velocity, &g, &mut intent, &mut grounded, None, None);
    assert_eq!(velocity.y, 3_250);

    // At or below the minimum jump velocity the release does nothing.
    let mut velocity = Velocity::new(0, 2_000);
    let mut intent = press(ButtonState::Released, None);
    let mut grounded = Grounded::airborne(1);
    process_intent(&mut velocity, &g, &mut intent, &mut grounded, None, None);
    assert_eq!(velocity.y, 2_000);
}

#[test]
fn wall_slide_sets_and_clears() {
    let g = profile();
    // Falling along a wall within twice the skin width: sliding starts.
    let mut velocity = Velocity::new(0, -500);
    let mut intent = press(ButtonState::Released, None);
    let mut grounded = Grounded::airborne(1);
    let det = HorizontalObstacleDetection(Some(ClosestHorizontalCollision::Left(1_500)));
    process_intent(&mut velocity, &g, &mut intent, &mut grounded, None, Some(det));
    assert_eq!(
        grounded,
        Grounded::Airborne {
            duration_us: 0,
            jump_count: 1,
            sliding: true
        }
    );

    // Next step without the wall: the flag is re-derived and cleared.
    process_intent(&mut velocity, &g, &mut intent, &mut grounded, None, None);
    assert_eq!(
        grounded,
        Grounded::Airborne {
            duration_us: 0,
            jump_count: 1,
            sliding: false
        }
    );

    // Too far from the wall: no slide.
    let mut grounded = Grounded::airborne(1);
    let far = HorizontalObstacleDetection(Some(ClosestHorizontalCollision::Left(2_001)));
    process_intent(&mut velocity, &g, &mut intent, &mut grounded, None, Some(far));
    assert_eq!(
        grounded,
        Grounded::Airborne {
            duration_us: 0,
            jump_count: 1,
            sliding: false
        }
    );
}

#[test]
fn horizontal_smoothing() {
    let g = profile();
    // Without easing the velocity snaps to the target.
    let mut velocity = Velocity::new(0, 0);
    let mut intent = MovementIntent {
        horizontal_movement: 1_000,
        jump: TimedButtonInput {
            state: ButtonState::Released,
            last_pressed: None,
        },
    };
    let mut grounded = Grounded::Grounded;
    process_intent(&mut velocity, &g, &mut intent, &mut grounded, None, None);
    assert_eq!(velocity.x, BASE_SPEED);

    // Half-strength input scales the target.
    let mut velocity = Velocity::new(0, 0);
    let mut intent = MovementIntent {
        horizontal_movement: -500,
        jump: TimedButtonInput {
            state: ButtonState::Released,
            last_pressed: None,
        },
    };
    process_intent(&mut velocity, &g, &mut intent, &mut grounded, None, None);
    assert_eq!(velocity.x, -75_000);

    // With easing, one step closes the configured fraction of the gap.
    let easing = MovementEasing::new(250, 100);
    let mut velocity = Velocity::new(0, 0);
    let mut intent = MovementIntent {
        horizontal_movement: 1_000,
        jump: TimedButtonInput {
            state: ButtonState::Released,
            last_pressed: None,
        },
    };
    let mut grounded = Grounded::Grounded;
    process_intent(&mut velocity, &g, &mut intent, &mut grounded, Some(easing), None);
    assert_eq!(velocity.x, 37_500);

    // Airborne actors ease more slowly.
    let mut velocity = Velocity::new(0, 0);
    let mut grounded = Grounded::airborne(0);
    process_intent(&mut velocity, &g, &mut intent, &mut grounded, Some(easing), None);
    assert_eq!(velocity.x, 15_000);
}

#[test]
fn collect_intent_buffers_presses() {
    let idle = MovementIntent::default();
    // A fresh press starts the buffer at zero.
    let pressed = collect_intent(&idle, 500, ButtonState::JustPressed, 15_625);
    assert_eq!(pressed.horizontal_movement, 500);
    assert_eq!(pressed.jump.last_pressed, Some(0));

    // Later steps age the press by the frame time.
    let held = collect_intent(&pressed, 0, ButtonState::Pressed, 15_625);
    assert_eq!(held.jump.last_pressed, Some(15_625));
    let released = collect_intent(&held, 0, ButtonState::Released, 15_625);
    assert_eq!(released.jump.last_pressed, Some(31_250));

    // Without a recorded press there is nothing to age.
    let idle2 = collect_intent(&idle, 0, ButtonState::Released, 15_625);
    assert_eq!(idle2.jump.last_pressed, None);
}

#[test]
fn grid_sync_moves_lookup_entry() {
    let mut lookup = LevelEntityLookup::new();
    lookup.insert(GridCoords::new(0, 0), 7);
    let mut coords = GridCoords::new(0, 0);
    // One tile is 32 units; position (80.0, 0.0) lies in tile (2, 0).
    let t = Transform {
        x: 80_000,
        y: 0,
        scale_x: 1,
    };
    let changed = update_grid_coords(&t, &mut coords, &mut lookup, 7);
    assert!(changed);
    assert_eq!(coords, GridCoords::new(2, 0));
    assert_eq!(lookup.get(&GridCoords::new(0, 0)), None);
    assert_eq!(lookup.get(&GridCoords::new(2, 0)), Some(7));
}

#[test]
fn grid_sync_is_idempotent() {
    let mut lookup = LevelEntityLookup::new();
    lookup.insert(GridCoords::new(1, 1), 9);
    let mut coords = GridCoords::new(1, 1);
    let t = Transform {
        x: 100_000,
        y: 100_000,
        scale_x: 1,
    };
    let first = update_grid_coords(&t, &mut coords, &mut lookup, 9);
    assert!(first);
    let moved = coords;
    // No transform change in between: the second sync mutates nothing.
    let second = update_grid_coords(&t, &mut coords, &mut lookup, 9);
    assert!(!second);
    assert_eq!(coords, moved);
    assert_eq!(lookup.get(&moved), Some(9));
}
