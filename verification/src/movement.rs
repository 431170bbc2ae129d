//! Movement intent and its resolution: the central state machine turning
//! per-step input, grounded state and wall contacts into a new velocity
//! and grounded state.

use vstd::prelude::*;

use crate::math::lerp_spec;
use crate::level::{grid_axis_spec, GridCoords, LevelEntityLookup};
use crate::physics::{
    ClosestHorizontalCollision, Gravity, Grounded, HorizontalObstacleDetection, Transform,
    Velocity, SKIN_WIDTH, VEL_LIMIT,
};

verus! {

/// How long after leaving a ledge a jump is still honored, in
/// milliseconds.
pub const COYOTE_TIME_MS: u64 = 90;

/// How long before landing an early jump press is remembered, in
/// milliseconds.
pub const JUMP_INPUT_BUFFER_MS: u64 = 80;

/// Ground running speed, in milli-units per second.
pub const BASE_SPEED: i64 = 150_000;

/// Cap at which a press's age stops growing, far beyond the buffer
/// window, in microseconds.
pub const PRESS_AGE_CAP_US: u64 = 1_000_000_000_000;

/// A button's state within the current fixed step.
#[derive(Clone, Copy, Debug, PartialEq, Eq, Structural)]
pub enum ButtonState {
    Idle,
    JustPressed,
    Pressed,
    JustReleased,
    Released,
}

impl ButtonState {
    /// Whether the button is currently held down.
    pub open spec fn pressed_spec(self) -> bool {
        self == ButtonState::JustPressed || self == ButtonState::Pressed
    }

    pub fn pressed(&self) -> (r: bool)
        ensures
            r == self.pressed_spec(),
    {
        match self {
            ButtonState::JustPressed | ButtonState::Pressed => true,
            _ => false,
        }
    }
}

impl Default for ButtonState {
    fn default() -> (r: ButtonState)
        ensures
            r == ButtonState::Released,
    {
        ButtonState::Released
    }
}

/// A button state together with the age of its last press, in
/// microseconds.
#[derive(Clone, Copy, Debug, PartialEq, Eq, Structural)]
pub struct TimedButtonInput {
    pub state: ButtonState,
    pub last_pressed: Option<u64>,
}

impl TimedButtonInput {
    pub open spec fn wf(self) -> bool {
        self.last_pressed is Some ==> self.last_pressed->0 <= PRESS_AGE_CAP_US
    }
}

impl Default for TimedButtonInput {
    fn default() -> (r: TimedButtonInput)
        ensures
            r == (TimedButtonInput { state: ButtonState::Released, last_pressed: None }),
    {
        TimedButtonInput { state: ButtonState::Released, last_pressed: None }
    }
}

/// What the actor wants this step: a horizontal axis value in thousandths
/// of full deflection, and the jump button with its press age.
#[derive(Clone, Copy, Debug, PartialEq, Eq, Structural)]
pub struct MovementIntent {
    pub horizontal_movement: i64,
    pub jump: TimedButtonInput,
}

/// The sign of a horizontal axis value.
pub open spec fn horizontal_sign_spec(h: int) -> int {
    if h == 0 {
        0
    } else if h > 0 {
        1
    } else {
        -1
    }
}

impl MovementIntent {
    pub open spec fn wf(self) -> bool {
        &&& -1000 <= self.horizontal_movement <= 1000
        &&& self.jump.wf()
    }

    pub fn horizontal_sign(&self) -> (s: i64)
        ensures
            s == horizontal_sign_spec(self.horizontal_movement as int),
    {
        if self.horizontal_movement == 0 {
            0
        } else if self.horizontal_movement > 0 {
            1
        } else {
            -1
        }
    }
}

impl Default for MovementIntent {
    fn default() -> (r: MovementIntent)
        ensures
            r == (MovementIntent {
                horizontal_movement: 0,
                jump: TimedButtonInput { state: ButtonState::Released, last_pressed: None },
            }),
    {
        MovementIntent {
            horizontal_movement: 0,
            jump: TimedButtonInput { state: ButtonState::Released, last_pressed: None },
        }
    }
}

/// Per-step horizontal smoothing fractions, in thousandths: how much of
/// the gap to the target speed one fixed step closes. The host derives
/// them from its per-second decay rates and the fixed time step.
#[derive(Clone, Copy, Debug, PartialEq, Eq, Structural)]
pub struct MovementEasing {
    pub blend_ground: i64,
    pub blend_airborne: i64,
}

impl MovementEasing {
    pub open spec fn wf(self) -> bool {
        &&& 0 <= self.blend_ground <= 1000
        &&& 0 <= self.blend_airborne <= 1000
    }

    pub fn new(blend_ground: i64, blend_airborne: i64) -> (e: MovementEasing)
        requires
            0 <= blend_ground <= 1000,
            0 <= blend_airborne <= 1000,
        ensures
            e == (MovementEasing { blend_ground, blend_airborne }),
            e.wf(),
    {
        MovementEasing { blend_ground, blend_airborne }
    }
}

/// Rebuilds the actor's intent from this step's input: a fresh press
/// resets the press age to zero, otherwise an existing age grows by the
/// frame time (saturating at the cap).
pub open spec fn collect_intent_spec(
    prev: MovementIntent,
    horizontal_movement: int,
    state: ButtonState,
    dt_us: int,
) -> MovementIntent {
    MovementIntent {
        horizontal_movement: horizontal_movement as i64,
        jump: TimedButtonInput {
            state,
            last_pressed: if state == ButtonState::JustPressed {
                Some(0u64)
            } else {
                match prev.jump.last_pressed {
                    Some(age) => Some(
                        if age + dt_us >= PRESS_AGE_CAP_US {
                            PRESS_AGE_CAP_US
                        } else {
                            (age + dt_us) as u64
                        },
                    ),
                    None => None,
                }
            },
        },
    }
}

/// One per-step intent update from raw input values.
pub fn collect_intent(
    prev: &MovementIntent,
    horizontal_movement: i64,
    state: ButtonState,
    dt_us: u64,
) -> (r: MovementIntent)
    requires
        prev.wf(),
        -1000 <= horizontal_movement <= 1000,
        dt_us <= 1_000_000,
    ensures
        r == collect_intent_spec(*prev, horizontal_movement as int, state, dt_us as int),
        r.wf(),
{
    let last_pressed: Option<u64> = if state == ButtonState::JustPressed {
        Some(0)
    } else {
        match prev.jump.last_pressed {
            Some(age) => Some(
                if age >= PRESS_AGE_CAP_US - dt_us {
                    PRESS_AGE_CAP_US
                } else {
                    age + dt_us
                },
            ),
            None => None,
        }
    };
    MovementIntent { horizontal_movement, jump: TimedButtonInput { state, last_pressed } }
}

/// The horizontal speed the intent asks for, in milli-units per second.
pub open spec fn target_speed_spec(h: int) -> int {
    (BASE_SPEED * h) / 1000
}

/// This step's eased horizontal velocity: with an easing config, a blend
/// from the current velocity toward the target (ground and air blend
/// differently); without one, the target itself.
pub open spec fn smoothed_vx_spec(
    vx: int,
    target: int,
    easing: Option<MovementEasing>,
    grounded_now: bool,
) -> int {
    match easing {
        Some(e) => lerp_spec(
            vx,
            target,
            if grounded_now {
                e.blend_ground as int
            } else {
                e.blend_airborne as int
            },
        ),
        None => target,
    }
}

/// The sliding flag is re-derived each step, so it is cleared before the
/// branches run.
pub open spec fn clear_sliding_spec(g: Grounded) -> Grounded {
    match g {
        Grounded::Airborne { duration_us, jump_count, sliding } => Grounded::Airborne {
            duration_us,
            jump_count,
            sliding: false,
        },
        Grounded::Grounded => Grounded::Grounded,
    }
}

/// The side sign of a wall contact: `-1` left, `1` right, `0` none.
pub open spec fn wall_sign_spec(det: HorizontalObstacleDetection) -> int {
    match det.0 {
        Some(ClosestHorizontalCollision::Left(_)) => -1,
        Some(ClosestHorizontalCollision::Right(_)) => 1,
        None => 0,
    }
}

/// A wall jump fires on a fresh press while airborne against a detected
/// wall.
pub open spec fn wall_jump_applies_spec(
    intent: MovementIntent,
    g: Grounded,
    det: Option<HorizontalObstacleDetection>,
) -> bool {
    &&& intent.jump.state == ButtonState::JustPressed
    &&& g is Airborne
    &&& det is Some
    &&& (det->0).0 is Some
}

/// A wall slide starts when falling close along a detected wall.
pub open spec fn wall_slide_applies_spec(
    v: Velocity,
    g: Grounded,
    det: Option<HorizontalObstacleDetection>,
) -> bool {
    &&& g is Airborne
    &&& v.y < 0
    &&& det is Some
    &&& match (det->0).0 {
        Some(c) => (match c {
            ClosestHorizontalCollision::Left(d) => d as int,
            ClosestHorizontalCollision::Right(d) => d as int,
        }) <= 2 * SKIN_WIDTH,
        None => false,
    }
}

pub open spec fn set_sliding_spec(g: Grounded) -> Grounded {
    match g {
        Grounded::Airborne { duration_us, jump_count, sliding } => Grounded::Airborne {
            duration_us,
            jump_count,
            sliding: true,
        },
        Grounded::Grounded => Grounded::Grounded,
    }
}

/// Whether a recorded jump press is still fresh enough to honor.
pub open spec fn buffered_jump_spec(j: TimedButtonInput) -> bool {
    j.last_pressed is Some && j.last_pressed->0 / 1000 <= JUMP_INPUT_BUFFER_MS
}

/// The grounded transition a jump causes: leaving the ground spends the
/// first jump; an airborne (coyote) jump spends one more.
pub open spec fn jump_transition_spec(g: Grounded) -> Grounded {
    match g {
        Grounded::Grounded => Grounded::Airborne { duration_us: 0, jump_count: 1, sliding: false },
        Grounded::Airborne { duration_us, jump_count, sliding } => Grounded::Airborne {
            duration_us,
            jump_count: (jump_count + 1) as u8,
            sliding: false,
        },
    }
}

/// An early release shortens the jump only while still rising faster than
/// the minimum jump launch speed.
pub open spec fn release_applies_spec(intent: MovementIntent, prof: Gravity, v: Velocity) -> bool {
    (intent.jump.state == ButtonState::JustReleased || intent.jump.state == ButtonState::Released)
        && v.y > prof.min_jump_velocity
}

/// The complete intent-resolution step: horizontal smoothing always runs,
/// the sliding flag is cleared, and then exactly one of wall jump, wall
/// slide, buffered jump or early release fires.
pub open spec fn process_intent_spec(
    v: Velocity,
    prof: Gravity,
    intent: MovementIntent,
    g: Grounded,
    easing: Option<MovementEasing>,
    det: Option<HorizontalObstacleDetection>,
) -> (Velocity, MovementIntent, Grounded) {
    let target = target_speed_spec(intent.horizontal_movement as int);
    let vx = smoothed_vx_spec(v.x as int, target, easing, g is Grounded);
    let g1 = clear_sliding_spec(g);
    if wall_jump_applies_spec(intent, g1, det) {
        let sign = wall_sign_spec(det->0);
        if horizontal_sign_spec(intent.horizontal_movement as int) == sign {
            (Velocity { x: (-sign * ((3 * BASE_SPEED) / 2)) as i64, y: 4_500 }, intent, g1)
        } else {
            (Velocity { x: (-sign * ((9 * BASE_SPEED) / 5)) as i64, y: 4_000 }, intent, g1)
        }
    } else if wall_slide_applies_spec(v, g1, det) {
        (Velocity { x: vx as i64, y: v.y }, intent, set_sliding_spec(g1))
    } else if buffered_jump_spec(intent.jump) && g1.can_jump_spec(1, COYOTE_TIME_MS) {
        (
            Velocity { x: vx as i64, y: prof.jump_velocity },
            MovementIntent {
                horizontal_movement: intent.horizontal_movement,
                jump: TimedButtonInput { state: intent.jump.state, last_pressed: None },
            },
            jump_transition_spec(g1),
        )
    } else if release_applies_spec(intent, prof, v) {
        (Velocity { x: vx as i64, y: ((v.y * 650) / 1000) as i64 }, intent, g1)
    } else {
        (Velocity { x: vx as i64, y: v.y }, intent, g1)
    }
}

/// The central state machine of one fixed step: resolves the actor's
/// intent against its grounded state and wall contacts into a new velocity
/// and grounded state, consuming the jump buffer when a jump fires.
pub fn process_intent(
    velocity: &mut Velocity,
    gravity: &Gravity,
    intent: &mut MovementIntent,
    grounded: &mut Grounded,
    easing: Option<MovementEasing>,
    horizontal_obstacles: Option<HorizontalObstacleDetection>,
)
    requires
        old(velocity).wf(),
        gravity.wf(),
        old(intent).wf(),
        match easing {
            Some(e) => e.wf(),
            None => true,
        },
    ensures
        ({
            let r = process_intent_spec(
                *old(velocity),
                *gravity,
                *old(intent),
                *old(grounded),
                easing,
                horizontal_obstacles,
            );
            &&& *final(velocity) == r.0
            &&& *final(intent) == r.1
            &&& *final(grounded) == r.2
        }),
        final(velocity).wf(),
        final(intent).wf(),
{
    proof {
        assert(-150_000 <= (BASE_SPEED * intent.horizontal_movement) / 1000 <= 150_000
            && -1_000_000_000 <= BASE_SPEED * intent.horizontal_movement <= 1_000_000_000)
            by (nonlinear_arith)
            requires
                -1000 <= intent.horizontal_movement <= 1000,
        ;
        crate::math::lemma_div_fits_i64(BASE_SPEED * intent.horizontal_movement as int, 1000);
    }
    let target: i64 = (BASE_SPEED * intent.horizontal_movement).checked_div_euclid(1000).unwrap();
    proof {
        vstd::arithmetic::div_mod::lemma_div_is_ordered(
            BASE_SPEED * intent.horizontal_movement as int,
            1_000_000_000,
            1000,
        );
        vstd::arithmetic::div_mod::lemma_div_is_ordered(
            -1_000_000_000,
            BASE_SPEED * intent.horizontal_movement as int,
            1000,
        );
        assert(1_000_000_000int / 1000 == 1_000_000);
        assert((-1_000_000_000int) / 1000 == -1_000_000);
    }
    let grounded_now: bool = grounded.is_grounded();
    let vx: i64 = match easing {
        Some(e) => {
            let blend: i64 = if grounded_now {
                e.blend_ground
            } else {
                e.blend_airborne
            };
            proof {
                crate::math::lemma_lerp_bounded(velocity.x as int, target as int, blend as int);
            }
            crate::math::asymptotic_smoothing(velocity.x, target, blend)
        },
        None => target,
    };
    velocity.x = vx;
    match *grounded {
        Grounded::Airborne { duration_us, jump_count, sliding } => {
            if sliding {
                *grounded = Grounded::Airborne { duration_us, jump_count, sliding: false };
            }
        },
        Grounded::Grounded => {},
    }
    let wall_sign: Option<i64> = match &horizontal_obstacles {
        Some(d) => d.closest_sign(),
        None => None,
    };
    let wall_slide: bool = grounded.is_airborne() && velocity.falling() && (
    match &horizontal_obstacles {
        Some(d) => match d.0 {
            Some(c) => c.distance() <= 2 * SKIN_WIDTH,
            None => false,
        },
        None => false,
    });
    let buffered: bool = match intent.jump.last_pressed {
        Some(age) => age / 1000 <= JUMP_INPUT_BUFFER_MS,
        None => false,
    };
    if intent.jump.state == ButtonState::JustPressed && grounded.is_airborne()
        && wall_sign.is_some() {
        let sign: i64 = wall_sign.unwrap();
        if intent.horizontal_sign() == sign {
            velocity.x = -sign * 225_000;
            velocity.y = 4_500;
        } else {
            velocity.x = -sign * 270_000;
            velocity.y = 4_000;
        }
    } else if wall_slide {
        match *grounded {
            Grounded::Airborne { duration_us, jump_count, sliding } => {
                *grounded = Grounded::Airborne { duration_us, jump_count, sliding: true };
            },
            Grounded::Grounded => {},
        }
    } else if buffered && grounded.can_jump(1, COYOTE_TIME_MS) {
        intent.jump.last_pressed = None;
        velocity.y = gravity.jump_velocity();
        match *grounded {
            Grounded::Grounded => {
                *grounded = Grounded::airborne(1);
            },
            Grounded::Airborne { duration_us, jump_count, .. } => {
                *grounded = Grounded::Airborne {
                    duration_us,
                    jump_count: jump_count + 1,
                    sliding: false,
                };
            },
        }
    } else if (intent.jump.state == ButtonState::JustReleased || intent.jump.state
        == ButtonState::Released) && velocity.y > gravity.min_jump_velocity() {
        proof {
            assert(0 <= velocity.y * 650 <= 650_000_000_000) by (nonlinear_arith)
                requires
                    0 <= velocity.y <= VEL_LIMIT,
            ;
            crate::math::lemma_div_fits_i64(velocity.y * 650, 1000);
        }
        velocity.y = (velocity.y * 650).checked_div_euclid(1000).unwrap();
    }
}

/// The tile whose centre is nearest to a transform's position.
pub open spec fn grid_of_transform_spec(t: Transform) -> GridCoords {
    GridCoords { x: grid_axis_spec(t.x as int) as i32, y: grid_axis_spec(t.y as int) as i32 }
}

/// One grid-coordinate sync at the spec level: the new coordinate, the
/// new lookup contents, and whether anything was mutated.
pub open spec fn grid_sync_spec(
    t: Transform,
    coords: GridCoords,
    contents: Map<GridCoords, u64>,
    entity: u64,
) -> (GridCoords, Map<GridCoords, u64>, bool) {
    let nc = grid_of_transform_spec(t);
    if nc != coords {
        (nc, contents.remove(coords).insert(nc, entity), true)
    } else {
        (coords, contents, false)
    }
}

/// Syncing twice with no transform change in between mutates nothing the
/// second time: the first sync leaves the stored coordinate at the
/// transform's tile, so the second finds nothing to do.
pub proof fn lemma_grid_sync_idempotent(
    t: Transform,
    coords: GridCoords,
    contents: Map<GridCoords, u64>,
    entity: u64,
)
    ensures
        ({
            let once = grid_sync_spec(t, coords, contents, entity);
            let twice = grid_sync_spec(t, once.0, once.1, entity);
            &&& !twice.2
            &&& twice.0 == once.0
            &&& twice.1 == once.1
        }),
{
}

/// After integration, refreshes the actor's discrete tile coordinate from
/// its continuous position; when the tile changed, moves the actor's entry
/// in the level lookup accordingly. Returns whether anything changed.
pub fn update_grid_coords(
    transform: &Transform,
    coords: &mut GridCoords,
    lookup: &mut LevelEntityLookup,
    entity: u64,
) -> (changed: bool)
    requires
        transform.wf(),
        old(lookup).wf(),
    ensures
        final(lookup).wf(),
        ({
            let r = grid_sync_spec(*transform, *old(coords), old(lookup).contents(), entity);
            &&& *final(coords) == r.0
            &&& final(lookup).contents() == r.1
            &&& changed == r.2
        }),
        !changed ==> *final(lookup) == *old(lookup),
{
    let new_coords = crate::level::translation_to_grid_coords(transform.x, transform.y);
    if new_coords != *coords {
        lookup.upsert(entity, coords, new_coords);
        *coords = new_coords;
        true
    } else {
        false
    }
}

} // verus!
