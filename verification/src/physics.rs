//! Kinematic movement components: velocity, gravity profile, grounded
//! state, sensor footprint and wall-contact detection, plus the fixed-step
//! systems that integrate them against the level's obstacle geometry.
//!
//! Conventions: distances are milli-units (`crate::math::MILLI` per world
//! unit); horizontal velocity is milli-units per second, vertical velocity
//! milli-units per fixed step; times are microseconds unless a name says
//! milliseconds.

use vstd::prelude::*;

use crate::math::{lemma_div_fits_i64, sqrt_floor};
use crate::obstacles::{
    cast_spec, clipped_move, moved_rect, rect_clear, Aabb, CastDir, ObstacleSet,
};

verus! {

/// Clearance kept between the actor and obstacle surfaces, in milli-units.
pub const SKIN_WIDTH: i64 = 1000;

/// Fixed simulation steps per second.
pub const FIXED_UPDATE_FPS: u32 = 64;

/// Magnitude bound on velocities, in milli-units.
pub const VEL_LIMIT: i64 = 1_000_000_000;

/// Magnitude bound on the gravity acceleration, in milli-units.
pub const GRAVITY_LIMIT: i64 = 1_000_000_000_000;

/// Magnitude bound on positions, in milli-units.
pub const POS_LIMIT: i64 = 1_000_000_000_000;

/// Bound on sensor dimensions, in milli-units.
pub const SENSOR_LIMIT: i64 = 1_000_000_000;

/// An actor's current velocity: `x` in milli-units per second, `y` in
/// milli-units per fixed step.
#[derive(Clone, Copy, Debug, PartialEq, Eq, Structural)]
pub struct Velocity {
    pub x: i64,
    pub y: i64,
}

impl Default for Velocity {
    fn default() -> (v: Velocity)
        ensures
            v == (Velocity { x: 0, y: 0 }),
    {
        Velocity { x: 0, y: 0 }
    }
}

impl Velocity {
    pub open spec fn wf(self) -> bool {
        &&& -VEL_LIMIT <= self.x <= VEL_LIMIT
        &&& -VEL_LIMIT <= self.y <= VEL_LIMIT
    }

    pub fn new(x: i64, y: i64) -> (v: Velocity)
        ensures
            v == (Velocity { x, y }),
    {
        Velocity { x, y }
    }

    /// Whether the actor is moving downward.
    pub fn falling(&self) -> (r: bool)
        ensures
            r == (self.y < 0),
    {
        self.y < 0
    }
}

/// An actor's continuous placement: position in milli-units and the sign
/// of its horizontal facing.
#[derive(Clone, Copy, Debug, PartialEq, Eq, Structural)]
pub struct Transform {
    pub x: i64,
    pub y: i64,
    pub scale_x: i64,
}

impl Transform {
    pub open spec fn wf(self) -> bool {
        &&& -POS_LIMIT <= self.x <= POS_LIMIT
        &&& -POS_LIMIT <= self.y <= POS_LIMIT
        &&& (self.scale_x == 1 || self.scale_x == -1)
    }
}

/// The geometric footprint used for every shape-cast: an axis-aligned box
/// of `size_x` by `size_y`, centred `ground_y_offset` below the actor's
/// transform.
#[derive(Clone, Copy, Debug, PartialEq, Eq, Structural)]
pub struct KinematicSensor {
    pub size_x: i64,
    pub size_y: i64,
    pub ground_y_offset: i64,
}

impl Default for KinematicSensor {
    fn default() -> (s: KinematicSensor)
        ensures
            s == (KinematicSensor { size_x: 16_000, size_y: 16_000, ground_y_offset: 0 }),
            s.wf(),
    {
        KinematicSensor { size_x: 16_000, size_y: 16_000, ground_y_offset: 0 }
    }
}

impl KinematicSensor {
    pub open spec fn wf(self) -> bool {
        &&& 2 * SKIN_WIDTH < self.size_x / 2 && self.size_x <= SENSOR_LIMIT
        &&& 2 * SKIN_WIDTH < self.size_y / 2 && self.size_y <= SENSOR_LIMIT
        &&& -SENSOR_LIMIT <= self.ground_y_offset <= SENSOR_LIMIT
    }

    /// The sensor's centre for a given transform.
    pub fn translation(&self, transform: &Transform) -> (c: (i64, i64))
        requires
            self.wf(),
            transform.wf(),
        ensures
            c.0 == transform.x,
            c.1 == transform.y - self.ground_y_offset,
    {
        (transform.x, transform.y - self.ground_y_offset)
    }
}

/// Whether the actor rests on a surface, and if not, for how long it has
/// been airborne, how many jumps it has spent, and whether it is sliding
/// down a wall.
#[derive(Clone, Copy, Debug, PartialEq, Eq, Structural)]
pub enum Grounded {
    Grounded,
    Airborne { duration_us: u64, jump_count: u8, sliding: bool },
}

/// Cap at which airborne time stops accumulating, far beyond any coyote
/// window.
pub const AIRBORNE_CAP_US: u64 = 1_000_000_000_000;

impl Default for Grounded {
    fn default() -> (g: Grounded)
        ensures
            g == Grounded::Grounded,
    {
        Grounded::Grounded
    }
}

impl Grounded {
    /// Freshly airborne with the given number of jumps already spent.
    pub fn airborne(jump_count: u8) -> (g: Grounded)
        ensures
            g == (Grounded::Airborne { duration_us: 0, jump_count, sliding: false }),
    {
        Grounded::Airborne { duration_us: 0, jump_count, sliding: false }
    }

    pub fn is_grounded(&self) -> (r: bool)
        ensures
            r == (self is Grounded),
    {
        match self {
            Grounded::Grounded => true,
            _ => false,
        }
    }

    pub fn is_airborne(&self) -> (r: bool)
        ensures
            r == (self is Airborne),
    {
        match self {
            Grounded::Airborne { .. } => true,
            _ => false,
        }
    }

    /// Whether a jump may start now: on the ground always, in the air only
    /// within the coyote window and with jumps to spare.
    pub open spec fn can_jump_spec(self, max_jump_count: u8, coyote_time_ms: u64) -> bool {
        match self {
            Grounded::Grounded => true,
            Grounded::Airborne { duration_us, jump_count, .. } => jump_count < max_jump_count
                && duration_us / 1000 <= coyote_time_ms,
        }
    }

    pub fn can_jump(&self, max_jump_count: u8, coyote_time_ms: u64) -> (r: bool)
        ensures
            r == self.can_jump_spec(max_jump_count, coyote_time_ms),
    {
        match self {
            Grounded::Grounded => true,
            Grounded::Airborne { duration_us, jump_count, .. } => *jump_count < max_jump_count
                && *duration_us / 1000 <= coyote_time_ms,
        }
    }
}

/// The nearest wall contact, by side, as a distance from the sensor's edge
/// (negative when already within the skin).
#[derive(Clone, Copy, Debug, PartialEq, Eq, Structural)]
pub enum ClosestHorizontalCollision {
    Left(i64),
    Right(i64),
}

impl ClosestHorizontalCollision {
    pub fn distance(&self) -> (d: i64)
        ensures
            d == match *self {
                ClosestHorizontalCollision::Left(l) => l,
                ClosestHorizontalCollision::Right(r) => r,
            },
    {
        match self {
            ClosestHorizontalCollision::Left(d) => *d,
            ClosestHorizontalCollision::Right(d) => *d,
        }
    }
}

/// Result of the per-step horizontal obstacle check: the closest wall
/// contact, if any side reported one.
#[derive(Clone, Copy, Debug, PartialEq, Eq, Structural)]
pub struct HorizontalObstacleDetection(pub Option<ClosestHorizontalCollision>);

impl Default for HorizontalObstacleDetection {
    fn default() -> (d: HorizontalObstacleDetection)
        ensures
            d.0 is None,
    {
        HorizontalObstacleDetection(None)
    }
}

impl HorizontalObstacleDetection {
    /// Combines the two per-side distances; when both sides hit, the
    /// nearer wall wins (ties go right).
    pub fn new(distance_left: Option<i64>, distance_right: Option<i64>) -> (d:
        HorizontalObstacleDetection)
        ensures
            d.0 == match (distance_left, distance_right) {
                (Some(l), None) => Some(ClosestHorizontalCollision::Left(l)),
                (None, Some(r)) => Some(ClosestHorizontalCollision::Right(r)),
                (Some(l), Some(r)) => if l < r {
                    Some(ClosestHorizontalCollision::Left(l))
                } else {
                    Some(ClosestHorizontalCollision::Right(r))
                },
                (None, None) => None,
            },
    {
        match (distance_left, distance_right) {
            (Some(l), None) => HorizontalObstacleDetection(
                Some(ClosestHorizontalCollision::Left(l)),
            ),
            (None, Some(r)) => HorizontalObstacleDetection(
                Some(ClosestHorizontalCollision::Right(r)),
            ),
            (Some(l), Some(r)) => {
                if l < r {
                    HorizontalObstacleDetection(Some(ClosestHorizontalCollision::Left(l)))
                } else {
                    HorizontalObstacleDetection(Some(ClosestHorizontalCollision::Right(r)))
                }
            },
            (None, None) => HorizontalObstacleDetection(None),
        }
    }

    /// `-1` for a wall on the left, `1` for one on the right.
    pub fn closest_sign(&self) -> (s: Option<i64>)
        ensures
            s == match self.0 {
                Some(ClosestHorizontalCollision::Left(_)) => Some(-1i64),
                Some(ClosestHorizontalCollision::Right(_)) => Some(1i64),
                None => None,
            },
    {
        match self.0 {
            Some(ClosestHorizontalCollision::Left(_)) => Some(-1),
            Some(ClosestHorizontalCollision::Right(_)) => Some(1),
            None => None,
        }
    }
}

/// Downward acceleration, in milli-units per second squared, derived from
/// a maximum jump height (milli-units) and a time to apex (milliseconds).
pub open spec fn accel_spec(height_max: int, apex_ms: int) -> int {
    (1_000_000 * height_max) / (apex_ms * apex_ms)
}

/// Initial vertical speed of a full jump, in milli-units per step.
pub open spec fn jump_velocity_spec(height_max: int, apex_ms: int) -> int {
    (1000 * height_max) / apex_ms
}

/// Initial vertical speed of the shortest jump: the full speed scaled by
/// the square root of the height ratio.
pub open spec fn min_jump_velocity_spec(height_min: int, height_max: int, apex_ms: int) -> int {
    (jump_velocity_spec(height_max, apex_ms) * sqrt_floor(
        ((1_000_000 * height_min) / height_max) as nat,
    )) / 1000
}

/// Terminal fall speed (negative), in milli-units per step.
pub open spec fn max_fall_velocity_spec(height_max: int, apex_ms: int) -> int {
    -((500_000 * height_max) / (apex_ms * apex_ms))
}

/// Per-actor gravity tuning, derived once from designer-facing inputs:
/// the range of reachable jump heights and the time a full jump takes to
/// its apex. Each field is the exact rational value of its formula,
/// rounded toward zero once.
#[derive(Clone, Copy, Debug, PartialEq, Eq, Structural)]
pub struct Gravity {
    pub gravity: i64,
    pub jump_velocity: i64,
    pub min_jump_velocity: i64,
    pub max_fall_velocity: i64,
    pub ground_width: i64,
}

impl Default for Gravity {
    /// The game's stock profile: jumps between half a unit and 1.27
    /// units, 300 ms to the apex, one tile of ground width.
    fn default() -> (g: Gravity)
        ensures
            g.wf(),
            g.gravity == -accel_spec(1270, 300),
            g.jump_velocity == jump_velocity_spec(1270, 300),
            g.min_jump_velocity == min_jump_velocity_spec(500, 1270, 300),
            g.max_fall_velocity == max_fall_velocity_spec(1270, 300),
            g.ground_width == crate::level::TILE_SIZE_MILLI,
    {
        Gravity::new(500, 1270, 300, 32_000)
    }
}

impl Gravity {
    pub open spec fn wf(self) -> bool {
        &&& -GRAVITY_LIMIT <= self.gravity <= 0
        &&& 0 <= self.jump_velocity <= VEL_LIMIT
        &&& 0 <= self.min_jump_velocity <= self.jump_velocity
        &&& -VEL_LIMIT <= self.max_fall_velocity < 0
    }

    /// Builds the profile. The inputs must describe a real jump: positive
    /// heights within range, a positive apex time, and enough acceleration
    /// for a visible arc.
    pub fn new(
        jump_height_min: i64,
        jump_height_max: i64,
        jump_to_apex_duration_ms: i64,
        ground_width: i64,
    ) -> (g: Gravity)
        requires
            0 < jump_height_min <= jump_height_max <= 1_000_000,
            1 <= jump_to_apex_duration_ms <= 1_000_000,
            1000 * jump_height_max >= jump_to_apex_duration_ms,
            500_000 * jump_height_max >= jump_to_apex_duration_ms * jump_to_apex_duration_ms,
            500_000 * jump_height_max <= 1_000_000_000 * jump_to_apex_duration_ms
                * jump_to_apex_duration_ms,
            -SENSOR_LIMIT <= ground_width <= SENSOR_LIMIT,
        ensures
            g.wf(),
            g.gravity == -accel_spec(jump_height_max as int, jump_to_apex_duration_ms as int),
            g.jump_velocity == jump_velocity_spec(
                jump_height_max as int,
                jump_to_apex_duration_ms as int,
            ),
            g.min_jump_velocity == min_jump_velocity_spec(
                jump_height_min as int,
                jump_height_max as int,
                jump_to_apex_duration_ms as int,
            ),
            g.max_fall_velocity == max_fall_velocity_spec(
                jump_height_max as int,
                jump_to_apex_duration_ms as int,
            ),
            g.ground_width == ground_width,
    {
        let t: i64 = jump_to_apex_duration_ms;
        proof {
            assert(1 <= t * t <= 1_000_000_000_000) by (nonlinear_arith)
                requires
                    1 <= t <= 1_000_000,
            ;
            lemma_div_fits_i64(1_000_000 * jump_height_max as int, t * t);
            lemma_div_fits_i64(500_000 * jump_height_max as int, t * t);
            lemma_div_fits_i64(1000 * jump_height_max as int, t as int);
        }
        let t_sq: i64 = t * t;
        let accel: i64 = (1_000_000 * jump_height_max).checked_div_euclid(t_sq).unwrap();
        let jump_velocity: i64 = (1000 * jump_height_max).checked_div_euclid(t).unwrap();
        let fall: i64 = (500_000 * jump_height_max).checked_div_euclid(t_sq).unwrap();
        proof {
            lemma_div_fits_i64(1_000_000 * jump_height_min as int, jump_height_max as int);
            vstd::arithmetic::div_mod::lemma_div_is_ordered(
                1_000_000 * jump_height_min as int,
                1_000_000 * jump_height_max as int,
                jump_height_max as int,
            );
            vstd::arithmetic::div_mod::lemma_div_multiples_vanish(
                1_000_000,
                jump_height_max as int,
            );
            assert(jump_height_max * 1_000_000 == 1_000_000 * jump_height_max) by (nonlinear_arith);
        }
        let ratio: i64 = (1_000_000 * jump_height_min).checked_div_euclid(jump_height_max).unwrap();
        let s: u64 = crate::math::isqrt(ratio as u64);
        proof {
            assert(s <= 1000) by (nonlinear_arith)
                requires
                    s * s <= ratio as u64,
                    0 <= ratio <= 1_000_000,
            ;
            assert(0 <= jump_velocity * (s as i64) <= 1_000_000_000_000) by (nonlinear_arith)
                requires
                    0 <= jump_velocity <= 1_000_000_000,
                    0 <= s <= 1000,
            ;
            lemma_div_fits_i64(jump_velocity * (s as i64), 1000);
            assert(jump_velocity * (s as i64) <= jump_velocity * 1000) by (nonlinear_arith)
                requires
                    0 <= jump_velocity,
                    0 <= s <= 1000,
            ;
            vstd::arithmetic::div_mod::lemma_div_is_ordered(
                jump_velocity * (s as i64),
                jump_velocity * 1000,
                1000,
            );
            vstd::arithmetic::div_mod::lemma_div_multiples_vanish(jump_velocity as int, 1000);
            assert(jump_velocity * 1000 == 1000 * jump_velocity) by (nonlinear_arith);
            vstd::arithmetic::div_mod::lemma_div_pos_is_pos(jump_velocity * (s as i64), 1000);
            vstd::arithmetic::div_mod::lemma_div_pos_is_pos(1000 * jump_height_max as int, t as int);
            vstd::arithmetic::div_mod::lemma_div_pos_is_pos(
                500_000 * jump_height_max as int,
                t_sq as int,
            );
            assert(500_000 * jump_height_max >= t_sq);
            vstd::arithmetic::div_mod::lemma_div_is_ordered(
                t_sq as int,
                500_000 * jump_height_max as int,
                t_sq as int,
            );
            vstd::arithmetic::div_mod::lemma_div_by_self(t_sq as int);
            assert(1_000_000_000 * (t_sq as int) == (t_sq as int) * 1_000_000_000
                && 1_000_000_000 * (t as int) * (t as int) == 1_000_000_000 * ((t as int) * (
            t as int))) by (nonlinear_arith);
            vstd::arithmetic::div_mod::lemma_div_is_ordered(
                500_000 * jump_height_max as int,
                1_000_000_000 * (t_sq as int),
                t_sq as int,
            );
            vstd::arithmetic::div_mod::lemma_div_multiples_vanish(1_000_000_000, t_sq as int);
            vstd::arithmetic::div_mod::lemma_div_is_ordered(
                1000 * jump_height_max as int,
                1_000_000_000_000,
                t as int,
            );
            assert(1_000_000_000_000int / (t as int) <= 1_000_000_000_000);
        }
        let min_jump_velocity: i64 = (jump_velocity * (s as i64)).checked_div_euclid(1000).unwrap();
        Gravity {
            gravity: -accel,
            jump_velocity,
            min_jump_velocity,
            max_fall_velocity: -fall,
            ground_width,
        }
    }

    pub fn jump_velocity(&self) -> (v: i64)
        ensures
            v == self.jump_velocity,
    {
        self.jump_velocity
    }


    pub fn min_jump_velocity(&self) -> (v: i64)
        ensures
            v == self.min_jump_velocity,
    {
        self.min_jump_velocity
    }
}

/// How far to each side the wall check probes: a quarter tile plus the
/// skin width, in milli-units.
pub const WALL_CAST_DISTANCE: i64 = 9000;

/// The actor's sensor box inset by the skin width on every side, at the
/// given transform: the rectangle all shape-casts sweep.
pub open spec fn sensor_rect_inset(sensor: KinematicSensor, t: Transform) -> (int, int, int, int) {
    let cx = t.x as int;
    let cy = t.y - sensor.ground_y_offset;
    let hx = sensor.size_x / 2 - SKIN_WIDTH;
    let hy = sensor.size_y / 2 - SKIN_WIDTH;
    (cx - hx, cx + hx, cy - hy, cy + hy)
}

/// Whether the ground probe under the sensor's bottom edge strikes a
/// surface within the skin width.
pub open spec fn ground_hit_spec(obs: Seq<Aabb>, sensor: KinematicSensor, t: Transform) -> bool {
    let r = sensor_rect_inset(sensor, t);
    cast_spec(CastDir::Down, obs, r.0, r.1, r.2, SKIN_WIDTH as int) is Some
}

/// The grounded state after one ground check: a hit grounds the actor;
/// otherwise a grounded actor becomes freshly airborne and an airborne one
/// accumulates time (saturating at the cap).
pub open spec fn grounded_after_spec(g: Grounded, hit: bool, dt_us: int) -> Grounded {
    if hit {
        Grounded::Grounded
    } else {
        match g {
            Grounded::Grounded => Grounded::Airborne {
                duration_us: 0,
                jump_count: 0,
                sliding: false,
            },
            Grounded::Airborne { duration_us, jump_count, sliding } => Grounded::Airborne {
                duration_us: if duration_us + dt_us >= AIRBORNE_CAP_US {
                    AIRBORNE_CAP_US
                } else {
                    (duration_us + dt_us) as u64
                },
                jump_count,
                sliding,
            },
        }
    }
}

/// Per-step ground check: probes straight down from the sensor's bottom
/// edge and transitions the grounded state. On the transition into
/// `Grounded` the vertical velocity is zeroed (the landing snap).
pub fn check_grounded(
    sensor: &KinematicSensor,
    transform: &Transform,
    obstacles: &ObstacleSet,
    grounded: &mut Grounded,
    velocity: &mut Velocity,
    dt_us: u64,
)
    requires
        sensor.wf(),
        transform.wf(),
        obstacles.wf(),
        dt_us <= 1_000_000,
    ensures
        *final(grounded) == grounded_after_spec(
            *old(grounded),
            ground_hit_spec(obstacles.obstacles@, *sensor, *transform),
            dt_us as int,
        ),
        final(velocity).x == old(velocity).x,
        final(velocity).y == if ground_hit_spec(obstacles.obstacles@, *sensor, *transform) && (
        *old(grounded) is Airborne) {
            0int
        } else {
            old(velocity).y as int
        },
{
    proof {
        lemma_div_fits_i64(sensor.size_x as int, 2);
        lemma_div_fits_i64(sensor.size_y as int, 2);
    }
    let hx: i64 = sensor.size_x.checked_div_euclid(2).unwrap() - SKIN_WIDTH;
    let hy: i64 = sensor.size_y.checked_div_euclid(2).unwrap() - SKIN_WIDTH;
    let cx: i64 = transform.x;
    let cy: i64 = transform.y - sensor.ground_y_offset;
    let hit = obstacles.cast(CastDir::Down, cx - hx, cx + hx, cy - hy, SKIN_WIDTH);
    if hit.is_some() {
        if !grounded.is_grounded() {
            velocity.y = 0;
        }
        *grounded = Grounded::Grounded;
    } else {
        match *grounded {
            Grounded::Grounded => {
                *grounded = Grounded::airborne(0);
            },
            Grounded::Airborne { duration_us, jump_count, sliding } => {
                let d: u64 = if duration_us >= AIRBORNE_CAP_US - dt_us {
                    AIRBORNE_CAP_US
                } else {
                    duration_us + dt_us
                };
                *grounded = Grounded::Airborne { duration_us: d, jump_count, sliding };
            },
        }
    }
}

/// The gap from the sensor's edge on one side to the nearest wall within
/// the probe distance, measured beyond the skin width (negative when the
/// wall is already within the skin).
pub open spec fn side_distance_spec(
    obs: Seq<Aabb>,
    sensor: KinematicSensor,
    t: Transform,
    right: bool,
) -> Option<int> {
    let hx = sensor.size_x / 2 - SKIN_WIDTH;
    let hy = sensor.size_y / 2 - SKIN_WIDTH;
    let r = if right {
        cast_spec(
            CastDir::Right,
            obs,
            t.y - hy,
            t.y + hy,
            t.x + hx,
            WALL_CAST_DISTANCE as int,
        )
    } else {
        cast_spec(CastDir::Left, obs, t.y - hy, t.y + hy, t.x - hx, WALL_CAST_DISTANCE as int)
    };
    match r {
        Some(g) => Some(g - SKIN_WIDTH),
        None => None,
    }
}

/// What the wall check reports: the closer of the two per-side contacts.
pub open spec fn detection_spec(obs: Seq<Aabb>, sensor: KinematicSensor, t: Transform) -> Option<
    ClosestHorizontalCollision,
> {
    match (side_distance_spec(obs, sensor, t, false), side_distance_spec(obs, sensor, t, true)) {
        (Some(l), None) => Some(ClosestHorizontalCollision::Left(l as i64)),
        (None, Some(r)) => Some(ClosestHorizontalCollision::Right(r as i64)),
        (Some(l), Some(r)) => if l < r {
            Some(ClosestHorizontalCollision::Left(l as i64))
        } else {
            Some(ClosestHorizontalCollision::Right(r as i64))
        },
        (None, None) => None,
    }
}

/// Per-step wall check: probes a quarter tile to each side of the sensor
/// and records the nearest contact.
pub fn check_horizontal_collisions(
    sensor: &KinematicSensor,
    transform: &Transform,
    obstacles: &ObstacleSet,
    detection: &mut HorizontalObstacleDetection,
)
    requires
        sensor.wf(),
        transform.wf(),
        obstacles.wf(),
    ensures
        final(detection).0 == detection_spec(obstacles.obstacles@, *sensor, *transform),
{
    proof {
        lemma_div_fits_i64(sensor.size_x as int, 2);
        lemma_div_fits_i64(sensor.size_y as int, 2);
    }
    let hx: i64 = sensor.size_x.checked_div_euclid(2).unwrap() - SKIN_WIDTH;
    let hy: i64 = sensor.size_y.checked_div_euclid(2).unwrap() - SKIN_WIDTH;
    let left_gap = obstacles.cast(
        CastDir::Left,
        transform.y - hy,
        transform.y + hy,
        transform.x - hx,
        WALL_CAST_DISTANCE,
    );
    let right_gap = obstacles.cast(
        CastDir::Right,
        transform.y - hy,
        transform.y + hy,
        transform.x + hx,
        WALL_CAST_DISTANCE,
    );
    proof {
        crate::obstacles::lemma_cast_spec_props(
            CastDir::Left,
            obstacles.obstacles@,
            transform.y - hy,
            transform.y + hy,
            transform.x - hx,
            WALL_CAST_DISTANCE as int,
        );
        crate::obstacles::lemma_cast_spec_props(
            CastDir::Right,
            obstacles.obstacles@,
            transform.y - hy,
            transform.y + hy,
            transform.x + hx,
            WALL_CAST_DISTANCE as int,
        );
    }
    let left_distance: Option<i64> = match left_gap {
        Some(g) => Some(g - SKIN_WIDTH),
        None => None,
    };
    let right_distance: Option<i64> = match right_gap {
        Some(g) => Some(g - SKIN_WIDTH),
        None => None,
    };
    *detection = HorizontalObstacleDetection::new(left_distance, right_distance);
}

/// The vertical velocity after one step of gravity: pulled down by the
/// acceleration (halved near the apex while the jump button is held, for
/// hang time) and clamped at the terminal fall speed. Gravity does not act
/// on a grounded actor.
pub open spec fn apply_gravity_spec(prof: Gravity, vy: int, jump_down: bool, dt_us: int) -> int {
    let factor_num: int = if jump_down && -(prof.jump_velocity / 8) <= vy <= prof.jump_velocity / 8 {
        1
    } else {
        2
    };
    let next = vy + (prof.gravity * factor_num * dt_us) / 2_000_000;
    if next >= prof.max_fall_velocity {
        next
    } else {
        prof.max_fall_velocity as int
    }
}

/// Gravity never drives an actor past its terminal fall speed, and never
/// accelerates it upward.
pub proof fn lemma_gravity_respects_terminal(prof: Gravity, vy: int, jump_down: bool, dt_us: int)
    requires
        prof.wf(),
        0 <= dt_us <= 1_000_000,
        vy >= prof.max_fall_velocity,
    ensures
        prof.max_fall_velocity <= apply_gravity_spec(prof, vy, jump_down, dt_us) <= vy,
{
    let factor_num: int = if jump_down && -(prof.jump_velocity / 8) <= vy <= prof.jump_velocity
        / 8 {
        1
    } else {
        2
    };
    assert(-2_000_000_000_000_000_000 <= prof.gravity * factor_num * dt_us <= 0)
        by (nonlinear_arith)
        requires
            -GRAVITY_LIMIT <= prof.gravity <= 0,
            0 <= factor_num <= 2,
            0 <= dt_us <= 1_000_000,
    ;
    lemma_div_fits_i64(prof.gravity * factor_num * dt_us, 2_000_000);
}

/// Per-step gravity integration.
pub fn apply_gravity(
    gravity: &Gravity,
    velocity: &mut Velocity,
    grounded: &Grounded,
    intent: &crate::movement::MovementIntent,
    dt_us: u64,
)
    requires
        gravity.wf(),
        old(velocity).wf(),
        dt_us <= 1_000_000,
    ensures
        final(velocity).x == old(velocity).x,
        final(velocity).y == if *grounded is Grounded {
            old(velocity).y as int
        } else {
            apply_gravity_spec(
                *gravity,
                old(velocity).y as int,
                intent.jump.state.pressed_spec(),
                dt_us as int,
            )
        },
        final(velocity).wf(),
{
    if grounded.is_grounded() {
        return ;
    }
    proof {
        lemma_div_fits_i64(gravity.jump_velocity as int, 8);
    }
    let threshold: i64 = gravity.jump_velocity.checked_div_euclid(8).unwrap();
    let half: bool = intent.jump.state.pressed() && -threshold <= velocity.y && velocity.y
        <= threshold;
    let factor_num: i64 = if half {
        1
    } else {
        2
    };
    proof {
        assert(-2_000_000_000_000_000_000 <= gravity.gravity * factor_num * dt_us <= 0)
            by (nonlinear_arith)
            requires
                -GRAVITY_LIMIT <= gravity.gravity <= 0,
                1 <= factor_num <= 2,
                0 <= dt_us <= 1_000_000,
        ;
        lemma_div_fits_i64(gravity.gravity * factor_num * (dt_us as i64), 2_000_000);
    }
    let delta: i64 = (gravity.gravity * factor_num * (dt_us as i64)).checked_div_euclid(
        2_000_000,
    ).unwrap();
    let next: i64 = velocity.y + delta;
    velocity.y = if next >= gravity.max_fall_velocity {
        next
    } else {
        gravity.max_fall_velocity
    };
}

/// The horizontal distance one fixed step covers at velocity `vx`
/// (milli-units per second), rounded toward zero.
pub open spec fn scaled_step_spec(vx: int, dt_us: int) -> int {
    if vx >= 0 {
        (vx * dt_us) / 1_000_000
    } else {
        -(((-vx) * dt_us) / 1_000_000)
    }
}

/// Per-step vertical motion: sweeps the inset sensor box along the
/// vertical velocity, clipped to keep the skin gap before the nearest
/// floor or ceiling; striking a ceiling zeroes the vertical velocity.
/// Skipped entirely for grounded or vertically still actors.
pub fn apply_vertical_velocity(
    grounded: &Grounded,
    velocity: &mut Velocity,
    transform: &mut Transform,
    sensor: &KinematicSensor,
    obstacles: &ObstacleSet,
)
    requires
        sensor.wf(),
        obstacles.wf(),
        old(velocity).wf(),
        old(transform).wf(),
        -POS_LIMIT + VEL_LIMIT <= old(transform).y <= POS_LIMIT - VEL_LIMIT,
    ensures
        final(transform).x == old(transform).x,
        final(transform).scale_x == old(transform).scale_x,
        final(transform).wf(),
        final(velocity).x == old(velocity).x,
        final(velocity).wf(),
        (*grounded is Grounded || old(velocity).y == 0) ==> *final(transform) == *old(transform)
            && *final(velocity) == *old(velocity),
        (*grounded is Airborne && old(velocity).y < 0) ==> ({
            let r = sensor_rect_inset(*sensor, *old(transform));
            &&& final(transform).y == old(transform).y - clipped_move(
                CastDir::Down,
                obstacles.obstacles@,
                r.0,
                r.1,
                r.2,
                r.3,
                -old(velocity).y,
                SKIN_WIDTH as int,
            )
            &&& final(velocity).y == old(velocity).y
        }),
        (*grounded is Airborne && old(velocity).y > 0) ==> ({
            let r = sensor_rect_inset(*sensor, *old(transform));
            &&& final(transform).y == old(transform).y + clipped_move(
                CastDir::Up,
                obstacles.obstacles@,
                r.0,
                r.1,
                r.2,
                r.3,
                old(velocity).y as int,
                SKIN_WIDTH as int,
            )
            &&& final(velocity).y == if cast_spec(
                CastDir::Up,
                obstacles.obstacles@,
                r.0,
                r.1,
                r.3,
                old(velocity).y + SKIN_WIDTH,
            ) is Some {
                0int
            } else {
                old(velocity).y as int
            }
        }),
        ({
            let r0 = sensor_rect_inset(*sensor, *old(transform));
            let r1 = sensor_rect_inset(*sensor, *final(transform));
            rect_clear(obstacles.obstacles@, r0.0, r0.1, r0.2, r0.3) ==> rect_clear(
                obstacles.obstacles@,
                r1.0,
                r1.1,
                r1.2,
                r1.3,
            )
        }),
{
    if grounded.is_grounded() || velocity.y == 0 {
        return ;
    }
    proof {
        lemma_div_fits_i64(sensor.size_x as int, 2);
        lemma_div_fits_i64(sensor.size_y as int, 2);
    }
    let hx: i64 = sensor.size_x.checked_div_euclid(2).unwrap() - SKIN_WIDTH;
    let hy: i64 = sensor.size_y.checked_div_euclid(2).unwrap() - SKIN_WIDTH;
    let cx: i64 = transform.x;
    let cy: i64 = transform.y - sensor.ground_y_offset;
    let ghost r0 = sensor_rect_inset(*sensor, *transform);
    if velocity.y < 0 {
        let want: i64 = -velocity.y;
        let hit = obstacles.cast(CastDir::Down, cx - hx, cx + hx, cy - hy, want + SKIN_WIDTH);
        proof {
            crate::obstacles::lemma_cast_spec_props(
                CastDir::Down,
                obstacles.obstacles@,
                r0.0,
                r0.1,
                r0.2,
                want + SKIN_WIDTH,
            );
        }
        let m: i64 = match hit {
            Some(g) => if g - SKIN_WIDTH > 0 {
                g - SKIN_WIDTH
            } else {
                0
            },
            None => want,
        };
        transform.y = transform.y - m;
        proof {
            let mv = clipped_move(
                CastDir::Down,
                obstacles.obstacles@,
                r0.0,
                r0.1,
                r0.2,
                r0.3,
                want as int,
                SKIN_WIDTH as int,
            );
            assert(m == mv);
            if rect_clear(obstacles.obstacles@, r0.0, r0.1, r0.2, r0.3) {
                crate::obstacles::lemma_clipped_move_preserves_clear(
                    CastDir::Down,
                    obstacles.obstacles@,
                    r0.0,
                    r0.1,
                    r0.2,
                    r0.3,
                    want as int,
                    SKIN_WIDTH as int,
                );
            }
            let r1 = sensor_rect_inset(*sensor, *transform);
            assert(r1 == moved_rect(CastDir::Down, r0.0, r0.1, r0.2, r0.3, mv));
        }
    } else {
        let want: i64 = velocity.y;
        let hit = obstacles.cast(CastDir::Up, cx - hx, cx + hx, cy + hy, want + SKIN_WIDTH);
        proof {
            crate::obstacles::lemma_cast_spec_props(
                CastDir::Up,
                obstacles.obstacles@,
                r0.0,
                r0.1,
                r0.3,
                want + SKIN_WIDTH,
            );
        }
        if hit.is_some() {
            velocity.y = 0;
        }
        let m: i64 = match hit {
            Some(g) => if g - SKIN_WIDTH > 0 {
                g - SKIN_WIDTH
            } else {
                0
            },
            None => want,
        };
        transform.y = transform.y + m;
        proof {
            let mv = clipped_move(
                CastDir::Up,
                obstacles.obstacles@,
                r0.0,
                r0.1,
                r0.2,
                r0.3,
                want as int,
                SKIN_WIDTH as int,
            );
            assert(m == mv);
            if rect_clear(obstacles.obstacles@, r0.0, r0.1, r0.2, r0.3) {
                crate::obstacles::lemma_clipped_move_preserves_clear(
                    CastDir::Up,
                    obstacles.obstacles@,
                    r0.0,
                    r0.1,
                    r0.2,
                    r0.3,
                    want as int,
                    SKIN_WIDTH as int,
                );
            }
            let r1 = sensor_rect_inset(*sensor, *transform);
            assert(r1 == moved_rect(CastDir::Up, r0.0, r0.1, r0.2, r0.3, mv));
        }
    }
}

/// Per-step horizontal motion: converts the per-second horizontal
/// velocity to this step's distance, turns the actor to face the motion,
/// and sweeps the inset sensor box sideways with the same skin-width
/// clipping as the vertical pass. A step of zero distance changes
/// nothing.
pub fn apply_horizontal_velocity(
    velocity: &Velocity,
    sensor: &KinematicSensor,
    transform: &mut Transform,
    obstacles: &ObstacleSet,
    dt_us: u64,
)
    requires
        velocity.wf(),
        sensor.wf(),
        obstacles.wf(),
        old(transform).wf(),
        dt_us <= 1_000_000,
        -POS_LIMIT + VEL_LIMIT <= old(transform).x <= POS_LIMIT - VEL_LIMIT,
    ensures
        final(transform).y == old(transform).y,
        final(transform).wf(),
        scaled_step_spec(velocity.x as int, dt_us as int) == 0 ==> *final(transform) == *old(
            transform,
        ),
        ({
            let step = scaled_step_spec(velocity.x as int, dt_us as int);
            let r = sensor_rect_inset(*sensor, *old(transform));
            &&& step > 0 ==> final(transform).scale_x == 1 && final(transform).x == old(
                transform,
            ).x + clipped_move(
                CastDir::Right,
                obstacles.obstacles@,
                r.0,
                r.1,
                r.2,
                r.3,
                step,
                SKIN_WIDTH as int,
            )
            &&& step < 0 ==> final(transform).scale_x == -1 && final(transform).x == old(
                transform,
            ).x - clipped_move(
                CastDir::Left,
                obstacles.obstacles@,
                r.0,
                r.1,
                r.2,
                r.3,
                -step,
                SKIN_WIDTH as int,
            )
        }),
        ({
            let r0 = sensor_rect_inset(*sensor, *old(transform));
            let r1 = sensor_rect_inset(*sensor, *final(transform));
            rect_clear(obstacles.obstacles@, r0.0, r0.1, r0.2, r0.3) ==> rect_clear(
                obstacles.obstacles@,
                r1.0,
                r1.1,
                r1.2,
                r1.3,
            )
        }),
{
    let x_step: i64;
    if velocity.x >= 0 {
        proof {
            assert(0 <= velocity.x * dt_us <= 1_000_000_000_000_000) by (nonlinear_arith)
                requires
                    0 <= velocity.x <= VEL_LIMIT,
                    0 <= dt_us <= 1_000_000,
            ;
            lemma_div_fits_i64(velocity.x * (dt_us as i64), 1_000_000);
            assert(velocity.x * dt_us <= VEL_LIMIT * 1_000_000) by (nonlinear_arith)
                requires
                    0 <= velocity.x <= VEL_LIMIT,
                    0 <= dt_us <= 1_000_000,
            ;
            vstd::arithmetic::div_mod::lemma_div_is_ordered(
                velocity.x * (dt_us as i64),
                VEL_LIMIT * 1_000_000,
                1_000_000,
            );
            vstd::arithmetic::div_mod::lemma_div_multiples_vanish(VEL_LIMIT as int, 1_000_000);
            assert(VEL_LIMIT * 1_000_000 == 1_000_000 * (VEL_LIMIT as int)) by (nonlinear_arith);
        }
        x_step = (velocity.x * (dt_us as i64)).checked_div_euclid(1_000_000).unwrap();
    } else {
        proof {
            assert(0 <= (-velocity.x) * dt_us <= 1_000_000_000_000_000) by (nonlinear_arith)
                requires
                    -VEL_LIMIT <= velocity.x < 0,
                    0 <= dt_us <= 1_000_000,
            ;
            lemma_div_fits_i64((-velocity.x) * (dt_us as i64), 1_000_000);
            assert((-velocity.x) * dt_us <= VEL_LIMIT * 1_000_000) by (nonlinear_arith)
                requires
                    -VEL_LIMIT <= velocity.x < 0,
                    0 <= dt_us <= 1_000_000,
            ;
            vstd::arithmetic::div_mod::lemma_div_is_ordered(
                (-velocity.x) * (dt_us as i64),
                VEL_LIMIT * 1_000_000,
                1_000_000,
            );
            vstd::arithmetic::div_mod::lemma_div_multiples_vanish(VEL_LIMIT as int, 1_000_000);
            assert(VEL_LIMIT * 1_000_000 == 1_000_000 * (VEL_LIMIT as int)) by (nonlinear_arith);
        }
        x_step = -((-velocity.x) * (dt_us as i64)).checked_div_euclid(1_000_000).unwrap();
    }
    if x_step == 0 {
        return ;
    }
    transform.scale_x = if x_step > 0 {
        1
    } else {
        -1
    };
    proof {
        lemma_div_fits_i64(sensor.size_x as int, 2);
        lemma_div_fits_i64(sensor.size_y as int, 2);
    }
    let hx: i64 = sensor.size_x.checked_div_euclid(2).unwrap() - SKIN_WIDTH;
    let hy: i64 = sensor.size_y.checked_div_euclid(2).unwrap() - SKIN_WIDTH;
    let cx: i64 = transform.x;
    let cy: i64 = transform.y - sensor.ground_y_offset;
    let ghost r0 = sensor_rect_inset(*sensor, *transform);
    if x_step > 0 {
        let want: i64 = x_step;
        let hit = obstacles.cast(CastDir::Right, cy - hy, cy + hy, cx + hx, want + SKIN_WIDTH);
        proof {
            crate::obstacles::lemma_cast_spec_props(
                CastDir::Right,
                obstacles.obstacles@,
                r0.2,
                r0.3,
                r0.1,
                want + SKIN_WIDTH,
            );
        }
        let m: i64 = match hit {
            Some(g) => if g - SKIN_WIDTH > 0 {
                g - SKIN_WIDTH
            } else {
                0
            },
            None => want,
        };
        transform.x = transform.x + m;
        proof {
            let mv = clipped_move(
                CastDir::Right,
                obstacles.obstacles@,
                r0.0,
                r0.1,
                r0.2,
                r0.3,
                want as int,
                SKIN_WIDTH as int,
            );
            assert(m == mv);
            if rect_clear(obstacles.obstacles@, r0.0, r0.1, r0.2, r0.3) {
                crate::obstacles::lemma_clipped_move_preserves_clear(
                    CastDir::Right,
                    obstacles.obstacles@,
                    r0.0,
                    r0.1,
                    r0.2,
                    r0.3,
                    want as int,
                    SKIN_WIDTH as int,
                );
            }
            let r1 = sensor_rect_inset(*sensor, *transform);
            assert(r1 == moved_rect(CastDir::Right, r0.0, r0.1, r0.2, r0.3, mv));
        }
    } else {
        let want: i64 = -x_step;
        let hit = obstacles.cast(CastDir::Left, cy - hy, cy + hy, cx - hx, want + SKIN_WIDTH);
        proof {
            crate::obstacles::lemma_cast_spec_props(
                CastDir::Left,
                obstacles.obstacles@,
                r0.2,
                r0.3,
                r0.0,
                want + SKIN_WIDTH,
            );
        }
        let m: i64 = match hit {
            Some(g) => if g - SKIN_WIDTH > 0 {
                g - SKIN_WIDTH
            } else {
                0
            },
            None => want,
        };
        transform.x = transform.x - m;
        proof {
            let mv = clipped_move(
                CastDir::Left,
                obstacles.obstacles@,
                r0.0,
                r0.1,
                r0.2,
                r0.3,
                want as int,
                SKIN_WIDTH as int,
            );
            assert(m == mv);
            if rect_clear(obstacles.obstacles@, r0.0, r0.1, r0.2, r0.3) {
                crate::obstacles::lemma_clipped_move_preserves_clear(
                    CastDir::Left,
                    obstacles.obstacles@,
                    r0.0,
                    r0.1,
                    r0.2,
                    r0.3,
                    want as int,
                    SKIN_WIDTH as int,
                );
            }
            let r1 = sensor_rect_inset(*sensor, *transform);
            assert(r1 == moved_rect(CastDir::Left, r0.0, r0.1, r0.2, r0.3, mv));
        }
    }
}

/// A taller maximum jump height never lowers the jump velocity.
pub proof fn lemma_jump_velocity_monotonic_weak(h1: int, h2: int, apex_ms: int)
    requires
        0 < h1 <= h2,
        1 <= apex_ms,
    ensures
        jump_velocity_spec(h1, apex_ms) <= jump_velocity_spec(h2, apex_ms),
{
    vstd::arithmetic::div_mod::lemma_div_is_ordered(1000 * h1, 1000 * h2, apex_ms);
}

/// A taller maximum jump height strictly raises the jump velocity, as
/// soon as the height difference exceeds the fixed-point quantum
/// `apex_ms / 1000`.
pub proof fn lemma_jump_velocity_monotonic(h1: int, h2: int, apex_ms: int)
    requires
        0 < h1 < h2,
        1 <= apex_ms,
        1000 * (h2 - h1) >= apex_ms,
    ensures
        jump_velocity_spec(h1, apex_ms) < jump_velocity_spec(h2, apex_ms),
{
    vstd::arithmetic::div_mod::lemma_div_is_ordered(1000 * h1 + apex_ms, 1000 * h2, apex_ms);
    vstd::arithmetic::div_mod::lemma_div_plus_one(1000 * h1, apex_ms);
}

/// The shortest jump never launches faster than the full jump.
pub proof fn lemma_min_jump_le_jump(height_min: int, height_max: int, apex_ms: int)
    requires
        0 < height_min <= height_max,
        1 <= apex_ms,
    ensures
        0 <= min_jump_velocity_spec(height_min, height_max, apex_ms) <= jump_velocity_spec(
            height_max,
            apex_ms,
        ),
{
    let jv = jump_velocity_spec(height_max, apex_ms);
    let ratio = (1_000_000 * height_min) / height_max;
    vstd::arithmetic::div_mod::lemma_div_pos_is_pos(1000 * height_max, apex_ms);
    vstd::arithmetic::div_mod::lemma_div_pos_is_pos(1_000_000 * height_min, height_max);
    vstd::arithmetic::div_mod::lemma_div_is_ordered(
        1_000_000 * height_min,
        1_000_000 * height_max,
        height_max,
    );
    vstd::arithmetic::div_mod::lemma_div_multiples_vanish(1_000_000, height_max);
    assert(height_max * 1_000_000 == 1_000_000 * height_max) by (nonlinear_arith);
    assert(ratio <= 1_000_000);
    crate::math::lemma_sqrt_floor_props(ratio as nat);
    let s = sqrt_floor(ratio as nat);
    assert(s <= 1000) by (nonlinear_arith)
        requires
            s * s <= ratio <= 1_000_000,
    ;
    assert(jv * s <= jv * 1000) by (nonlinear_arith)
        requires
            0 <= jv,
            0 <= s <= 1000,
    ;
    assert(0 <= jv * s) by (nonlinear_arith)
        requires
            0 <= jv,
            0 <= s,
    ;
    vstd::arithmetic::div_mod::lemma_div_is_ordered(jv * s, jv * 1000, 1000);
    vstd::arithmetic::div_mod::lemma_div_multiples_vanish(jv, 1000);
    assert(jv * 1000 == 1000 * jv) by (nonlinear_arith);
    vstd::arithmetic::div_mod::lemma_div_pos_is_pos(jv * s, 1000);
}

} // verus!
