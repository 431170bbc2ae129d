//! The level's static collision geometry and the axis-aligned shape-casts
//! the movement pipeline runs against it.
//!
//! A cast sweeps an axis-aligned span (the actor's leading edge) along one
//! of the four axis directions and reports the smallest gap to any
//! qualifying obstacle face, or nothing when no obstacle lies within the
//! cast distance.

use vstd::prelude::*;

verus! {

/// Coordinate bound for obstacle geometry, in milli-units.
pub const OBSTACLE_LIMIT: i64 = 1_000_000_000_000;

/// Bound on cast origins and distances, in milli-units.
pub const CAST_LIMIT: i64 = 4_000_000_000_000;

/// An axis-aligned solid rectangle, in milli-units.
#[derive(Clone, Copy, Debug, PartialEq, Eq, Structural)]
pub struct Aabb {
    pub min_x: i64,
    pub min_y: i64,
    pub max_x: i64,
    pub max_y: i64,
}

impl Aabb {
    pub open spec fn wf(self) -> bool {
        &&& self.min_x < self.max_x
        &&& self.min_y < self.max_y
        &&& -OBSTACLE_LIMIT <= self.min_x
        &&& self.max_x <= OBSTACLE_LIMIT
        &&& -OBSTACLE_LIMIT <= self.min_y
        &&& self.max_y <= OBSTACLE_LIMIT
    }
}

/// The four directions a cast can sweep.
#[derive(Clone, Copy, Debug, PartialEq, Eq, Structural)]
pub enum CastDir {
    Down,
    Up,
    Left,
    Right,
}

/// Whether the swept span `(p0, p1)` passes over the obstacle's extent on
/// the perpendicular axis. Touching edges do not collide.
pub open spec fn cast_overlap(dir: CastDir, b: Aabb, p0: int, p1: int) -> bool {
    match dir {
        CastDir::Down | CastDir::Up => p0 < b.max_x && b.min_x < p1,
        CastDir::Left | CastDir::Right => p0 < b.max_y && b.min_y < p1,
    }
}

/// Distance from the cast's leading edge at `front` to the obstacle face
/// it would strike; negative when the face lies behind the edge.
pub open spec fn cast_gap(dir: CastDir, b: Aabb, front: int) -> int {
    match dir {
        CastDir::Down => front - b.max_y,
        CastDir::Up => b.min_y - front,
        CastDir::Left => front - b.max_x,
        CastDir::Right => b.min_x - front,
    }
}

/// Whether the cast strikes obstacle `b` within `dist`.
pub open spec fn cast_hits(dir: CastDir, b: Aabb, p0: int, p1: int, front: int, dist: int) -> bool {
    cast_overlap(dir, b, p0, p1) && 0 <= cast_gap(dir, b, front) <= dist
}

/// The smallest gap to any obstacle the cast strikes, over the whole set.
pub open spec fn cast_spec(
    dir: CastDir,
    obs: Seq<Aabb>,
    p0: int,
    p1: int,
    front: int,
    dist: int,
) -> Option<int>
    decreases obs.len(),
{
    if obs.len() == 0 {
        None
    } else {
        let rest = cast_spec(dir, obs.drop_last(), p0, p1, front, dist);
        let b = obs.last();
        if cast_hits(dir, b, p0, p1, front, dist) {
            let g = cast_gap(dir, b, front);
            match rest {
                None => Some(g),
                Some(g2) => Some(
                    if g2 <= g {
                        g2
                    } else {
                        g
                    },
                ),
            }
        } else {
            rest
        }
    }
}

/// What a cast result means: `None` exactly when nothing qualifies, and a
/// result is the least gap among qualifying obstacles, within the cast
/// distance.
pub proof fn lemma_cast_spec_props(
    dir: CastDir,
    obs: Seq<Aabb>,
    p0: int,
    p1: int,
    front: int,
    dist: int,
)
    ensures
        match cast_spec(dir, obs, p0, p1, front, dist) {
            None => forall|i: int|
                0 <= i < obs.len() ==> !cast_hits(dir, #[trigger] obs[i], p0, p1, front, dist),
            Some(g) => {
                &&& exists|i: int|
                    0 <= i < obs.len() && cast_hits(dir, #[trigger] obs[i], p0, p1, front, dist)
                        && cast_gap(dir, obs[i], front) == g
                &&& forall|i: int|
                    0 <= i < obs.len() && cast_hits(dir, #[trigger] obs[i], p0, p1, front, dist)
                        ==> g <= cast_gap(dir, obs[i], front)
                &&& 0 <= g <= dist
            },
        },
    decreases obs.len(),
{
    if obs.len() > 0 {
        lemma_cast_spec_props(dir, obs.drop_last(), p0, p1, front, dist);
        assert(forall|i: int| 0 <= i < obs.len() - 1 ==> obs.drop_last()[i] == #[trigger] obs[i]);
        let b = obs.last();
        let rest = cast_spec(dir, obs.drop_last(), p0, p1, front, dist);
        match cast_spec(dir, obs, p0, p1, front, dist) {
            None => {},
            Some(g) => {
                if cast_hits(dir, b, p0, p1, front, dist) {
                    match rest {
                        None => {
                            assert(obs[obs.len() - 1] == b);
                        },
                        Some(g2) => {
                            if g2 <= cast_gap(dir, b, front) {
                                let i = choose|i: int|
                                    0 <= i < obs.len() - 1 && cast_hits(
                                        dir,
                                        #[trigger] obs.drop_last()[i],
                                        p0,
                                        p1,
                                        front,
                                        dist,
                                    ) && cast_gap(dir, obs.drop_last()[i], front) == g2;
                                assert(obs[i] == obs.drop_last()[i]);
                            } else {
                                assert(obs[obs.len() - 1] == b);
                            }
                        },
                    }
                } else {
                    let g2 = rest->Some_0;
                    let i = choose|i: int|
                        0 <= i < obs.len() - 1 && cast_hits(
                            dir,
                            #[trigger] obs.drop_last()[i],
                            p0,
                            p1,
                            front,
                            dist,
                        ) && cast_gap(dir, obs.drop_last()[i], front) == g2;
                    assert(obs[i] == obs.drop_last()[i]);
                }
            },
        }
    }
}

/// Whether the open rectangle `(x0, x1) × (y0, y1)` overlaps obstacle `b`.
/// Touching boundaries do not overlap.
pub open spec fn rect_overlaps(b: Aabb, x0: int, x1: int, y0: int, y1: int) -> bool {
    x0 < b.max_x && b.min_x < x1 && y0 < b.max_y && b.min_y < y1
}

/// Whether the rectangle stays off every obstacle of the set.
pub open spec fn rect_clear(obs: Seq<Aabb>, x0: int, x1: int, y0: int, y1: int) -> bool {
    forall|i: int| 0 <= i < obs.len() ==> !rect_overlaps(#[trigger] obs[i], x0, x1, y0, y1)
}

/// The rectangle edge a sweep leads with.
pub open spec fn sweep_front(dir: CastDir, x0: int, x1: int, y0: int, y1: int) -> int {
    match dir {
        CastDir::Down => y0,
        CastDir::Up => y1,
        CastDir::Left => x0,
        CastDir::Right => x1,
    }
}

/// The rectangle's extent on the axis perpendicular to the sweep.
pub open spec fn sweep_span(dir: CastDir, x0: int, x1: int, y0: int, y1: int) -> (int, int) {
    match dir {
        CastDir::Down | CastDir::Up => (x0, x1),
        CastDir::Left | CastDir::Right => (y0, y1),
    }
}

/// How far the rectangle actually travels when it wants to move `want`
/// along `dir`: clipped to re-open a `skin` gap before the nearest struck
/// obstacle, or the full distance when nothing is struck within
/// `want + skin`.
pub open spec fn clipped_move(
    dir: CastDir,
    obs: Seq<Aabb>,
    x0: int,
    x1: int,
    y0: int,
    y1: int,
    want: int,
    skin: int,
) -> int {
    let span = sweep_span(dir, x0, x1, y0, y1);
    match cast_spec(dir, obs, span.0, span.1, sweep_front(dir, x0, x1, y0, y1), want + skin) {
        Some(g) => if g - skin > 0 {
            g - skin
        } else {
            0
        },
        None => want,
    }
}

/// The rectangle displaced by `m` along `dir`.
pub open spec fn moved_rect(dir: CastDir, x0: int, x1: int, y0: int, y1: int, m: int) -> (
    int,
    int,
    int,
    int,
) {
    match dir {
        CastDir::Down => (x0, x1, y0 - m, y1 - m),
        CastDir::Up => (x0, x1, y0 + m, y1 + m),
        CastDir::Left => (x0 - m, x1 - m, y0, y1),
        CastDir::Right => (x0 + m, x1 + m, y0, y1),
    }
}

/// A clipped sweep never travels backward and never farther than wanted.
pub proof fn lemma_clipped_move_bounds(
    dir: CastDir,
    obs: Seq<Aabb>,
    x0: int,
    x1: int,
    y0: int,
    y1: int,
    want: int,
    skin: int,
)
    requires
        want >= 0,
        skin >= 0,
    ensures
        0 <= clipped_move(dir, obs, x0, x1, y0, y1, want, skin) <= want,
{
    let span = sweep_span(dir, x0, x1, y0, y1);
    lemma_cast_spec_props(dir, obs, span.0, span.1, sweep_front(dir, x0, x1, y0, y1), want + skin);
}

/// One clipped sweep cannot drive a clear rectangle into an obstacle: the
/// clipping against the nearest struck face keeps every obstacle outside
/// the rectangle. With the rectangle taken as the actor's sensor inset by
/// the skin width, this is the per-step non-penetration guarantee.
pub proof fn lemma_clipped_move_preserves_clear(
    dir: CastDir,
    obs: Seq<Aabb>,
    x0: int,
    x1: int,
    y0: int,
    y1: int,
    want: int,
    skin: int,
)
    requires
        rect_clear(obs, x0, x1, y0, y1),
        want >= 0,
        skin >= 0,
    ensures
        ({
            let m = clipped_move(dir, obs, x0, x1, y0, y1, want, skin);
            let r = moved_rect(dir, x0, x1, y0, y1, m);
            rect_clear(obs, r.0, r.1, r.2, r.3)
        }),
{
    let span = sweep_span(dir, x0, x1, y0, y1);
    let front = sweep_front(dir, x0, x1, y0, y1);
    let res = cast_spec(dir, obs, span.0, span.1, front, want + skin);
    lemma_cast_spec_props(dir, obs, span.0, span.1, front, want + skin);
    let m = clipped_move(dir, obs, x0, x1, y0, y1, want, skin);
    assert(0 <= m <= want) by {
        lemma_clipped_move_bounds(dir, obs, x0, x1, y0, y1, want, skin);
    }
    let r = moved_rect(dir, x0, x1, y0, y1, m);
    assert forall|i: int| 0 <= i < obs.len() implies !rect_overlaps(
        #[trigger] obs[i],
        r.0,
        r.1,
        r.2,
        r.3,
    ) by {
        let b = obs[i];
        assert(!rect_overlaps(b, x0, x1, y0, y1));
        if cast_overlap(dir, b, span.0, span.1) {
            let gap = cast_gap(dir, b, front);
            if 0 <= gap {
                if gap <= want + skin {
                    assert(cast_hits(dir, b, span.0, span.1, front, want + skin));
                    assert(res is Some);
                    assert(res->Some_0 <= gap);
                    assert(m <= gap);
                } else {
                    assert(m <= want < gap);
                }
            }
        }
    }
}

/// Runs a whole sequence of wanted sweeps, each clipped against the
/// obstacle set from wherever the previous one ended.
pub open spec fn run_moves(
    obs: Seq<Aabb>,
    x0: int,
    x1: int,
    y0: int,
    y1: int,
    moves: Seq<(CastDir, int)>,
    skin: int,
) -> (int, int, int, int)
    decreases moves.len(),
{
    if moves.len() == 0 {
        (x0, x1, y0, y1)
    } else {
        let step = moves.first();
        let want = if step.1 >= 0 {
            step.1
        } else {
            0
        };
        let m = clipped_move(step.0, obs, x0, x1, y0, y1, want, skin);
        let r = moved_rect(step.0, x0, x1, y0, y1, m);
        run_moves(obs, r.0, r.1, r.2, r.3, moves.drop_first(), skin)
    }
}

/// Any sequence of clipped sweeps keeps a clear rectangle clear: an actor
/// whose skin-inset sensor starts outside the level's obstacles never
/// penetrates one, whatever velocities the steps ask for.
pub proof fn lemma_moves_never_penetrate(
    obs: Seq<Aabb>,
    x0: int,
    x1: int,
    y0: int,
    y1: int,
    moves: Seq<(CastDir, int)>,
    skin: int,
)
    requires
        rect_clear(obs, x0, x1, y0, y1),
        skin >= 0,
    ensures
        ({
            let r = run_moves(obs, x0, x1, y0, y1, moves, skin);
            rect_clear(obs, r.0, r.1, r.2, r.3)
        }),
    decreases moves.len(),
{
    if moves.len() > 0 {
        let step = moves.first();
        let want = if step.1 >= 0 {
            step.1
        } else {
            0
        };
        lemma_clipped_move_preserves_clear(step.0, obs, x0, x1, y0, y1, want, skin);
        let m = clipped_move(step.0, obs, x0, x1, y0, y1, want, skin);
        let r = moved_rect(step.0, x0, x1, y0, y1, m);
        lemma_moves_never_penetrate(obs, r.0, r.1, r.2, r.3, moves.drop_first(), skin);
    }
}

/// The level's static obstacle geometry.
pub struct ObstacleSet {
    pub obstacles: Vec<Aabb>,
}

impl ObstacleSet {
    pub open spec fn wf(self) -> bool {
        forall|i: int| 0 <= i < self.obstacles@.len() ==> (#[trigger] self.obstacles@[i]).wf()
    }

    pub fn new() -> (s: ObstacleSet)
        ensures
            s.wf(),
            s.obstacles@.len() == 0,
    {
        ObstacleSet { obstacles: Vec::new() }
    }

    /// Adds one solid rectangle to the level.
    pub fn add(&mut self, b: Aabb)
        requires
            old(self).wf(),
            b.wf(),
        ensures
            final(self).wf(),
            final(self).obstacles@ == old(self).obstacles@.push(b),
    {
        self.obstacles.push(b);
    }

    /// Sweeps the span `(p0, p1)` from `front` along `dir` for up to
    /// `dist`, returning the least gap to a qualifying obstacle face.
    #[verifier::loop_isolation(false)]
    pub fn cast(&self, dir: CastDir, p0: i64, p1: i64, front: i64, dist: i64) -> (r: Option<i64>)
        requires
            self.wf(),
            -CAST_LIMIT <= p0 <= CAST_LIMIT,
            -CAST_LIMIT <= p1 <= CAST_LIMIT,
            -CAST_LIMIT <= front <= CAST_LIMIT,
            0 <= dist <= CAST_LIMIT,
        ensures
            match r {
                None => cast_spec(dir, self.obstacles@, p0 as int, p1 as int, front as int, dist as int) is None,
                Some(g) => cast_spec(
                    dir,
                    self.obstacles@,
                    p0 as int,
                    p1 as int,
                    front as int,
                    dist as int,
                ) == Some(g as int),
            },
    {
        let obs = &self.obstacles;
        let mut best: Option<i64> = None;
        let mut i: usize = 0;
        while i < obs.len()
            invariant
                0 <= i <= obs@.len(),
                match best {
                    None => cast_spec(
                        dir,
                        obs@.take(i as int),
                        p0 as int,
                        p1 as int,
                        front as int,
                        dist as int,
                    ) is None,
                    Some(g) => cast_spec(
                        dir,
                        obs@.take(i as int),
                        p0 as int,
                        p1 as int,
                        front as int,
                        dist as int,
                    ) == Some(g as int) && 0 <= g <= dist,
                },
            decreases obs@.len() - i,
        {
            let b = obs[i];
            let q0: i64;
            let q1: i64;
            let gap: i64;
            match dir {
                CastDir::Down => {
                    q0 = b.min_x;
                    q1 = b.max_x;
                    gap = front - b.max_y;
                },
                CastDir::Up => {
                    q0 = b.min_x;
                    q1 = b.max_x;
                    gap = b.min_y - front;
                },
                CastDir::Left => {
                    q0 = b.min_y;
                    q1 = b.max_y;
                    gap = front - b.max_x;
                },
                CastDir::Right => {
                    q0 = b.min_y;
                    q1 = b.max_y;
                    gap = b.min_x - front;
                },
            }
            proof {
                assert(obs@.take(i + 1).drop_last() =~= obs@.take(i as int));
                assert(obs@.take(i + 1).last() == obs@[i as int]);
            }
            if p0 < q1 && q0 < p1 && 0 <= gap && gap <= dist {
                best = match best {
                    None => Some(gap),
                    Some(g) => Some(
                        if g <= gap {
                            g
                        } else {
                            gap
                        },
                    ),
                };
            } else {
                proof {
                    assert(!cast_hits(
                        dir,
                        obs@[i as int],
                        p0 as int,
                        p1 as int,
                        front as int,
                        dist as int,
                    ));
                }
            }
            i = i + 1;
        }
        proof {
            assert(obs@.take(obs@.len() as int) =~= obs@);
        }
        best
    }
}

} // verus!
