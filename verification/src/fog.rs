//! Fog-of-war support: the tile line between two grid coordinates, used
//! for line-of-sight checks.

use vstd::prelude::*;

use crate::level::{GridCoords, GRID_LIMIT};

verus! {

/// The stepping sign of one axis of a traversal (an axis that never steps
/// keeps the negative sign without ever using it).
pub open spec fn line_sign_spec(d: int) -> int {
    if d > 0 {
        1
    } else {
        -1
    }
}

/// One traversal step: a unit move along exactly one axis, in the
/// direction from `a` toward `b`.
pub open spec fn line_step_spec(a: GridCoords, b: GridCoords, p: GridCoords, q: GridCoords) -> bool {
    ||| (q.y == p.y && q.x - p.x == line_sign_spec(b.x - a.x))
    ||| (q.x == p.x && q.y - p.y == line_sign_spec(b.y - a.y))
}

/// The tiles a straight line from the centre of `a` to the centre of `b`
/// passes through, in order: a unit-step traversal that follows the
/// line's midpoints.
#[verifier::loop_isolation(false)]
pub fn grid_line(a: GridCoords, b: GridCoords) -> (r: Vec<GridCoords>)
    requires
        -GRID_LIMIT <= a.x <= GRID_LIMIT,
        -GRID_LIMIT <= a.y <= GRID_LIMIT,
        -GRID_LIMIT <= b.x <= GRID_LIMIT,
        -GRID_LIMIT <= b.y <= GRID_LIMIT,
    ensures
        r@.len() == 1 + (if b.x >= a.x {
            b.x - a.x
        } else {
            a.x - b.x
        }) + (if b.y >= a.y {
            b.y - a.y
        } else {
            a.y - b.y
        }),
        r@[0] == a,
        r@[r@.len() - 1] == b,
        forall|k: int| 0 <= k < r@.len() - 1 ==> line_step_spec(a, b, #[trigger] r@[k], r@[k + 1]),
{
    let ax: i64 = if b.x >= a.x {
        b.x as i64 - a.x as i64
    } else {
        a.x as i64 - b.x as i64
    };
    let ay: i64 = if b.y >= a.y {
        b.y as i64 - a.y as i64
    } else {
        a.y as i64 - b.y as i64
    };
    let sx: i32 = if b.x > a.x {
        1
    } else {
        -1
    };
    let sy: i32 = if b.y > a.y {
        1
    } else {
        -1
    };
    let mut points: Vec<GridCoords> = Vec::new();
    let mut px: i32 = a.x;
    let mut py: i32 = a.y;
    let mut ix: i64 = 0;
    let mut iy: i64 = 0;
    points.push(a);
    while ix < ax || iy < ay
        invariant
            0 <= ix <= ax,
            0 <= iy <= ay,
            px == a.x + sx * ix,
            py == a.y + sy * iy,
            ix < ax || px == b.x,
            iy < ay || py == b.y,
            points@.len() == 1 + ix + iy,
            points@[0] == a,
            points@[points@.len() - 1] == (GridCoords { x: px, y: py }),
            forall|k: int|
                0 <= k < points@.len() - 1 ==> line_step_spec(
                    a,
                    b,
                    #[trigger] points@[k],
                    points@[k + 1],
                ),
        decreases ax + ay - ix - iy,
    {
        proof {
            assert(sx * ix + sx == sx * (ix + 1) && sy * iy + sy == sy * (iy + 1))
                by (nonlinear_arith);
            assert((2 * ix + 1) * ay <= 9_000_000_000_000_000_000 && (2 * iy + 1) * ax
                <= 9_000_000_000_000_000_000 && (2 * ix + 1) * ay >= 0 && (2 * iy + 1) * ax >= 0)
                by (nonlinear_arith)
                requires
                    0 <= ix <= ax <= 2_000_000_001,
                    0 <= iy <= ay <= 2_000_000_001,
            ;
        }
        // Compare the line's crossing fractions (ix + 1/2) / ax and
        // (iy + 1/2) / ay by cross-multiplication; a zero-length axis
        // never wins.
        if (2 * ix + 1) * ay < (2 * iy + 1) * ax {
            proof {
                assert(ix < ax) by (nonlinear_arith)
                    requires
                        (2 * ix + 1) * ay < (2 * iy + 1) * ax,
                        0 <= ix <= ax,
                        0 <= iy <= ay,
                        ix < ax || iy < ay,
                ;
            }
            px = px + sx;
            ix = ix + 1;
        } else {
            proof {
                assert(iy < ay) by (nonlinear_arith)
                    requires
                        (2 * ix + 1) * ay >= (2 * iy + 1) * ax,
                        0 <= iy,
                        0 <= ix <= ax,
                        iy <= ay,
                        ix < ax || iy < ay,
                ;
            }
            py = py + sy;
            iy = iy + 1;
        }
        let ghost prev = points@;
        points.push(GridCoords { x: px, y: py });
        proof {
            assert(points@[points@.len() - 2] == prev[prev.len() - 1]);
            assert(line_step_spec(
                a,
                b,
                points@[points@.len() - 2],
                points@[points@.len() - 1],
            ));
            assert(forall|k: int| 0 <= k < prev.len() ==> points@[k] == prev[k]);
        }
    }
    points
}

} // verus!
