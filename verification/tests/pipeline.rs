use platformer::level::{translation_to_grid_coords, LevelEntityLookup};
use platformer::movement::{collect_intent, ButtonState, MovementIntent};
use platformer::obstacles::{Aabb, ObstacleSet};
use platformer::physics::{
    Gravity, Grounded, HorizontalObstacleDetection, KinematicSensor, Transform, Velocity,
    SKIN_WIDTH,
};
use platformer::pipeline::{fixed_step, Actor};

const DT_US: u64 = 15_625;

fn floor_level() -> ObstacleSet {
    let mut obs = ObstacleSet::new();
    obs.add(Aabb {
        min_x: -320_000,
        min_y: -32_000,
        max_x: 320_000,
        max_y: 0,
    });
    obs
}

fn resting_actor() -> Actor {
    // Default sensor (16 by 16, no offset): resting with the inset bottom
    // one skin width above the floor puts the transform at 8000.
    let transform = Transform {
        x: 0,
        y: 8_000,
        scale_x: 1,
    };
    Actor {
        transform,
        velocity: Velocity::new(0, 0),
        grounded: Grounded::Grounded,
        intent: MovementIntent::default(),
        detection: HorizontalObstacleDetection::default(),
        coords: translation_to_grid_coords(transform.x, transform.y),
        sensor: KinematicSensor::default(),
        gravity: Gravity::default(),
    }
}

#[test]
fn full_jump_arc_lands_again() {
    let obstacles = floor_level();
    let mut lookup = LevelEntityLookup::new();
    let mut actor = resting_actor();

    // Settle one step: the ground check confirms the grounded state.
    actor.intent = collect_intent(&actor.intent, 0, ButtonState::Released, DT_US);
    fixed_step(&mut actor, &obstacles, &mut lookup, None, 0, DT_US);
    assert!(actor.grounded.is_grounded());

    // Press jump: the actor launches at the profile's jump velocity and
    // spends its jump.
    actor.intent = collect_intent(&actor.intent, 0, ButtonState::JustPressed, DT_US);
    fixed_step(&mut actor, &obstacles, &mut lookup, None, 0, DT_US);
    assert!(actor.grounded.is_airborne());
    assert!(actor.transform.y > 8_000);

    // Hold for a while: the actor rises, falls back and lands.
    let mut peak = actor.transform.y;
    let mut landed_at = None;
    for step in 0..256 {
        let state = if step < 20 {
            ButtonState::Pressed
        } else if step == 20 {
            ButtonState::JustReleased
        } else {
            ButtonState::Released
        };
        actor.intent = collect_intent(&actor.intent, 0, state, DT_US);
        fixed_step(&mut actor, &obstacles, &mut lookup, None, 0, DT_US);
        peak = peak.max(actor.transform.y);
        // The skin-inset sensor never penetrates the floor.
        assert!(actor.transform.y - 7_000 >= 0);
        if actor.grounded.is_grounded() && landed_at.is_none() {
            landed_at = Some(step);
        }
    }
    assert!(peak > 20_000, "the jump never rose: peak {peak}");
    assert!(landed_at.is_some(), "the actor never landed");
    // Back at rest: one skin width above the floor, vertically still.
    assert_eq!(actor.transform.y, 7_000 + SKIN_WIDTH);
    assert_eq!(actor.velocity.y, 0);
    assert!(actor.grounded.is_grounded());
}
