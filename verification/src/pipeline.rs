//! The fixed-step pipeline: one actor's complete simulation step, with
//! the stages in their load-bearing order — ground check, wall check,
//! intent resolution, gravity, horizontal then vertical integration, and
//! finally the grid-coordinate sync.

use vstd::prelude::*;

use crate::level::{GridCoords, LevelEntityLookup};
use crate::movement::{
    grid_sync_spec, process_intent, process_intent_spec, update_grid_coords, MovementEasing,
    MovementIntent,
};
use crate::obstacles::{cast_spec, clipped_move, rect_clear, Aabb, CastDir, ObstacleSet};
use crate::physics::{
    apply_gravity, apply_gravity_spec, apply_horizontal_velocity, apply_vertical_velocity,
    check_grounded, check_horizontal_collisions, detection_spec, ground_hit_spec,
    grounded_after_spec, scaled_step_spec, sensor_rect_inset, Gravity, Grounded,
    HorizontalObstacleDetection, KinematicSensor, Transform, Velocity, POS_LIMIT, SKIN_WIDTH,
    VEL_LIMIT,
};

verus! {

/// Everything the simulation attaches to a kinematic actor.
pub struct Actor {
    pub transform: Transform,
    pub velocity: Velocity,
    pub grounded: Grounded,
    pub intent: MovementIntent,
    pub detection: HorizontalObstacleDetection,
    pub coords: GridCoords,
    pub sensor: KinematicSensor,
    pub gravity: Gravity,
}

impl Actor {
    pub open spec fn wf(self) -> bool {
        &&& self.transform.wf()
        &&& self.velocity.wf()
        &&& self.intent.wf()
        &&& self.sensor.wf()
        &&& self.gravity.wf()
    }

    /// Whether the actor sits far enough from the coordinate limits for
    /// one step of motion.
    pub open spec fn in_play_area(self) -> bool {
        &&& -POS_LIMIT + VEL_LIMIT <= self.transform.x <= POS_LIMIT - VEL_LIMIT
        &&& -POS_LIMIT + VEL_LIMIT <= self.transform.y <= POS_LIMIT - VEL_LIMIT
    }
}

/// The transform after the horizontal integration stage.
pub open spec fn horizontal_moved_spec(
    obs: Seq<Aabb>,
    sensor: KinematicSensor,
    t: Transform,
    vx: int,
    dt_us: int,
) -> Transform {
    let step = scaled_step_spec(vx, dt_us);
    let r = sensor_rect_inset(sensor, t);
    if step == 0 {
        t
    } else if step > 0 {
        Transform {
            x: (t.x + clipped_move(
                CastDir::Right,
                obs,
                r.0,
                r.1,
                r.2,
                r.3,
                step,
                SKIN_WIDTH as int,
            )) as i64,
            scale_x: 1,
            ..t
        }
    } else {
        Transform {
            x: (t.x - clipped_move(
                CastDir::Left,
                obs,
                r.0,
                r.1,
                r.2,
                r.3,
                -step,
                SKIN_WIDTH as int,
            )) as i64,
            scale_x: -1i64,
            ..t
        }
    }
}

/// The transform and vertical velocity after the vertical integration
/// stage.
pub open spec fn vertical_moved_spec(
    obs: Seq<Aabb>,
    sensor: KinematicSensor,
    t: Transform,
    grounded: Grounded,
    vy: int,
) -> (Transform, int) {
    if grounded is Grounded || vy == 0 {
        (t, vy)
    } else {
        let r = sensor_rect_inset(sensor, t);
        if vy < 0 {
            (
                Transform {
                    y: (t.y - clipped_move(
                        CastDir::Down,
                        obs,
                        r.0,
                        r.1,
                        r.2,
                        r.3,
                        -vy,
                        SKIN_WIDTH as int,
                    )) as i64,
                    ..t
                },
                vy,
            )
        } else {
            (
                Transform {
                    y: (t.y + clipped_move(
                        CastDir::Up,
                        obs,
                        r.0,
                        r.1,
                        r.2,
                        r.3,
                        vy,
                        SKIN_WIDTH as int,
                    )) as i64,
                    ..t
                },
                if cast_spec(CastDir::Up, obs, r.0, r.1, r.3, vy + SKIN_WIDTH) is Some {
                    0int
                } else {
                    vy
                },
            )
        }
    }
}

/// One complete fixed step as a mathematical function: the next actor
/// state, the next lookup contents, and whether the sync mutated the
/// lookup. Every stage reads exactly what the previous stages produced,
/// so a step is a deterministic transform of its inputs.
pub open spec fn fixed_step_spec(
    a: Actor,
    obs: Seq<Aabb>,
    contents: Map<GridCoords, u64>,
    easing: Option<MovementEasing>,
    entity: u64,
    dt_us: int,
) -> (Actor, Map<GridCoords, u64>, bool) {
    let hit = ground_hit_spec(obs, a.sensor, a.transform);
    let g1 = grounded_after_spec(a.grounded, hit, dt_us);
    let v1 = Velocity {
        x: a.velocity.x,
        y: if hit && a.grounded is Airborne {
            0
        } else {
            a.velocity.y
        },
    };
    let det = HorizontalObstacleDetection(detection_spec(obs, a.sensor, a.transform));
    let pi = process_intent_spec(v1, a.gravity, a.intent, g1, easing, Some(det));
    let vy3 = if pi.2 is Grounded {
        pi.0.y as int
    } else {
        apply_gravity_spec(a.gravity, pi.0.y as int, pi.1.jump.state.pressed_spec(), dt_us)
    };
    let t1 = horizontal_moved_spec(obs, a.sensor, a.transform, pi.0.x as int, dt_us);
    let vm = vertical_moved_spec(obs, a.sensor, t1, pi.2, vy3);
    let sync = grid_sync_spec(vm.0, a.coords, contents, entity);
    (
        Actor {
            transform: vm.0,
            velocity: Velocity { x: pi.0.x, y: vm.1 as i64 },
            grounded: pi.2,
            intent: pi.1,
            detection: det,
            coords: sync.0,
            sensor: a.sensor,
            gravity: a.gravity,
        },
        sync.1,
        sync.2,
    )
}

/// Runs one complete fixed step on an actor against the level: the six
/// stages in order, ending with the lookup sync. Returns whether the
/// actor changed tile.
pub fn fixed_step(
    actor: &mut Actor,
    obstacles: &ObstacleSet,
    lookup: &mut LevelEntityLookup,
    easing: Option<MovementEasing>,
    entity: u64,
    dt_us: u64,
) -> (changed: bool)
    requires
        old(actor).wf(),
        old(actor).in_play_area(),
        obstacles.wf(),
        old(lookup).wf(),
        dt_us <= 1_000_000,
        match easing {
            Some(e) => e.wf(),
            None => true,
        },
    ensures
        final(actor).wf(),
        final(lookup).wf(),
        ({
            let r = fixed_step_spec(
                *old(actor),
                obstacles.obstacles@,
                old(lookup).contents(),
                easing,
                entity,
                dt_us as int,
            );
            &&& *final(actor) == r.0
            &&& final(lookup).contents() == r.1
            &&& changed == r.2
        }),
        ({
            let r0 = sensor_rect_inset(old(actor).sensor, old(actor).transform);
            let r1 = sensor_rect_inset(final(actor).sensor, final(actor).transform);
            rect_clear(obstacles.obstacles@, r0.0, r0.1, r0.2, r0.3) ==> rect_clear(
                obstacles.obstacles@,
                r1.0,
                r1.1,
                r1.2,
                r1.3,
            )
        }),
{
    check_grounded(
        &actor.sensor,
        &actor.transform,
        obstacles,
        &mut actor.grounded,
        &mut actor.velocity,
        dt_us,
    );
    check_horizontal_collisions(&actor.sensor, &actor.transform, obstacles, &mut actor.detection);
    process_intent(
        &mut actor.velocity,
        &actor.gravity,
        &mut actor.intent,
        &mut actor.grounded,
        easing,
        Some(actor.detection),
    );
    apply_gravity(&actor.gravity, &mut actor.velocity, &actor.grounded, &actor.intent, dt_us);
    apply_horizontal_velocity(&actor.velocity, &actor.sensor, &mut actor.transform, obstacles, dt_us);
    apply_vertical_velocity(
        &actor.grounded,
        &mut actor.velocity,
        &mut actor.transform,
        &actor.sensor,
        obstacles,
    );
    update_grid_coords(&actor.transform, &mut actor.coords, lookup, entity)
}

} // verus!
