//! Tile grid: discrete coordinates, conversion from continuous positions,
//! and the per-level coordinate-to-entity lookup.

use vstd::prelude::*;

use crate::math::MILLI;

verus! {

/// Edge length of one square tile, in world units.
pub const TILE_SIZE: u32 = 32;

/// Edge length of one square tile, in milli-units.
pub const TILE_SIZE_MILLI: i64 = 32 * MILLI;

/// Coordinate bound within which all grid arithmetic stays exact.
pub const GRID_LIMIT: i32 = 1_000_000_000;

/// A discrete tile coordinate. The level's origin tile is `(0, 0)`; `x`
/// grows rightward and `y` grows upward.
#[derive(Clone, Copy, Debug, PartialEq, Eq, Structural, Hash)]
pub struct GridCoords {
    pub x: i32,
    pub y: i32,
}

impl GridCoords {
    pub open spec fn spec_up(self) -> GridCoords {
        GridCoords { x: self.x, y: (self.y + 1) as i32 }
    }

    pub open spec fn spec_down(self) -> GridCoords {
        GridCoords { x: self.x, y: if self.y > 0 { (self.y - 1) as i32 } else { 0 } }
    }

    pub open spec fn spec_left(self) -> GridCoords {
        GridCoords { x: if self.x > 0 { (self.x - 1) as i32 } else { 0 }, y: self.y }
    }

    pub open spec fn spec_right(self) -> GridCoords {
        GridCoords { x: (self.x + 1) as i32, y: self.y }
    }

    pub fn new(x: i32, y: i32) -> (c: GridCoords)
        ensures
            c == (GridCoords { x, y }),
    {
        GridCoords { x, y }
    }

    pub fn x() -> (c: GridCoords)
        ensures
            c == (GridCoords { x: 1, y: 0 }),
    {
        GridCoords { x: 1, y: 0 }
    }

    pub fn neg_x() -> (c: GridCoords)
        ensures
            c == (GridCoords { x: -1i32, y: 0 }),
    {
        GridCoords { x: -1, y: 0 }
    }

    pub fn y() -> (c: GridCoords)
        ensures
            c == (GridCoords { x: 0, y: 1 }),
    {
        GridCoords { x: 0, y: 1 }
    }

    pub fn neg_y() -> (c: GridCoords)
        ensures
            c == (GridCoords { x: 0, y: -1i32 }),
    {
        GridCoords { x: 0, y: -1 }
    }

    pub fn up(&self) -> (c: GridCoords)
        requires
            self.y < i32::MAX,
        ensures
            c == self.spec_up(),
    {
        GridCoords { x: self.x, y: self.y + 1 }
    }

    /// One tile down, clamped at the level's bottom row.
    pub fn down(&self) -> (c: GridCoords)
        ensures
            c == self.spec_down(),
    {
        GridCoords { x: self.x, y: if self.y > 0 { self.y - 1 } else { 0 } }
    }

    /// One tile left, clamped at the level's leftmost column.
    pub fn left(&self) -> (c: GridCoords)
        ensures
            c == self.spec_left(),
    {
        GridCoords { x: if self.x > 0 { self.x - 1 } else { 0 }, y: self.y }
    }

    pub fn right(&self) -> (c: GridCoords)
        requires
            self.x < i32::MAX,
        ensures
            c == self.spec_right(),
    {
        GridCoords { x: self.x + 1, y: self.y }
    }

    /// The four axis neighbours, without duplicates (clamping at the level
    /// border can make some of them coincide).
    pub fn neighbours(&self) -> (res: Vec<GridCoords>)
        requires
            self.x < i32::MAX,
            self.y < i32::MAX,
        ensures
            forall|c: GridCoords| #[trigger]
                res@.contains(c) <==> (c == self.spec_up() || c == self.spec_down() || c
                    == self.spec_left() || c == self.spec_right()),
            res@.no_duplicates(),
    {
        let up: GridCoords = self.up();
        let down: GridCoords = self.down();
        let left: GridCoords = self.left();
        let right: GridCoords = self.right();
        let mut res: Vec<GridCoords> = Vec::new();
        push_unique(&mut res, up);
        push_unique(&mut res, down);
        push_unique(&mut res, left);
        push_unique(&mut res, right);
        res
    }

    /// Squared Euclidean distance between two tile coordinates.
    pub fn distance_squared(&self, other: &GridCoords) -> (d: i64)
        requires
            -1_000_001_000 <= self.x <= 1_000_001_000,
            -1_000_001_000 <= self.y <= 1_000_001_000,
            -1_000_001_000 <= other.x <= 1_000_001_000,
            -1_000_001_000 <= other.y <= 1_000_001_000,
        ensures
            d == (self.x - other.x) * (self.x - other.x) + (self.y - other.y) * (self.y - other.y),
    {
        let dx: i64 = self.x as i64 - other.x as i64;
        let dy: i64 = self.y as i64 - other.y as i64;
        proof {
            assert(0 <= dx * dx <= 4_000_008_000_004_000_000 && 0 <= dy * dy
                <= 4_000_008_000_004_000_000) by (nonlinear_arith)
                requires
                    -2_000_002_000 <= dx <= 2_000_002_000,
                    -2_000_002_000 <= dy <= 2_000_002_000,
            ;
        }
        dx * dx + dy * dy
    }

    /// Whether `c` belongs to the disc of tiles this `radius` query yields.
    pub open spec fn in_radius(self, radius: int, skip_center: bool, c: GridCoords) -> bool {
        &&& (if self.x - radius > 0 {
            self.x - radius
        } else {
            0
        }) <= c.x <= self.x + radius
        &&& (if self.y - radius > 0 {
            self.y - radius
        } else {
            0
        }) <= c.y <= self.y + radius
        &&& (c.x - self.x) * (c.x - self.x) + (c.y - self.y) * (c.y - self.y) <= radius * radius
        &&& !(skip_center && c == self)
    }

    /// All tiles within `radius` of this one (clamped at the level's lower
    /// border), in column-major order; the centre tile itself can be
    /// skipped.
    #[verifier::loop_isolation(false)]
    pub fn radius(&self, radius: u32, skip_center: bool) -> (res: Vec<GridCoords>)
        requires
            -GRID_LIMIT <= self.x <= GRID_LIMIT,
            -GRID_LIMIT <= self.y <= GRID_LIMIT,
            radius <= 1000,
        ensures
            forall|c: GridCoords| #[trigger]
                res@.contains(c) <==> self.in_radius(radius as int, skip_center, c),
            res@.no_duplicates(),
    {
        let r: i32 = radius as i32;
        let x_min: i32 = if self.x - r > 0 {
            self.x - r
        } else {
            0
        };
        let x_max: i32 = self.x + r;
        let y_min: i32 = if self.y - r > 0 {
            self.y - r
        } else {
            0
        };
        let y_max: i32 = self.y + r;
        proof {
            assert(0 <= (r as i64) * (r as i64) <= 1_000_000 && (r as i64) * (r as i64) == (
            radius * radius) as int) by (nonlinear_arith)
                requires
                    0 <= r <= 1000,
                    r == radius,
            ;
        }
        let r_sq: i64 = (r as i64) * (r as i64);
        let mut res: Vec<GridCoords> = Vec::new();
        let mut x: i32 = x_min;
        while x <= x_max
            invariant
                x_min <= x,
                x <= x_max + 1 || x == x_min,
                forall|c: GridCoords| #[trigger]
                    res@.contains(c) <==> (self.in_radius(radius as int, skip_center, c) && c.x
                        < x),
                res@.no_duplicates(),
            decreases x_max + 1 - x,
        {
            let mut y: i32 = y_min;
            while y <= y_max
                invariant
                    x <= x_max,
                    y_min <= y,
                    y <= y_max + 1 || y == y_min,
                    forall|c: GridCoords| #[trigger]
                        res@.contains(c) <==> (self.in_radius(radius as int, skip_center, c) && (
                        c.x < x || (c.x == x && c.y < y))),
                    res@.no_duplicates(),
                decreases y_max + 1 - y,
            {
                let here = GridCoords { x, y };
                if !(skip_center && x == self.x && y == self.y) {
                    let dist_sq: i64 = here.distance_squared(self);
                    if dist_sq <= r_sq {
                        let ghost prev = res@;
                        res.push(here);
                        proof {
                            assert(res@[prev.len() as int] == here);
                            assert(self.in_radius(radius as int, skip_center, here));
                            assert forall|c: GridCoords| #[trigger]
                                res@.contains(c) <==> (self.in_radius(
                                    radius as int,
                                    skip_center,
                                    c,
                                ) && (c.x < x || (c.x == x && c.y < y + 1))) by {
                                if res@.contains(c) {
                                    let i = choose|i: int| 0 <= i < res@.len() && res@[i] == c;
                                    if i < prev.len() {
                                        assert(prev.contains(c));
                                    } else {
                                        assert(c == here);
                                    }
                                }
                                if self.in_radius(radius as int, skip_center, c) && (c.x < x || (
                                c.x == x && c.y < y + 1)) {
                                    if c.x < x || (c.x == x && c.y < y) {
                                        assert(prev.contains(c));
                                        let i = choose|i: int|
                                            0 <= i < prev.len() && prev[i] == c;
                                        assert(res@[i] == c);
                                        assert(res@.contains(c));
                                    } else {
                                        assert(c == here);
                                        assert(res@.contains(c));
                                    }
                                }
                            }
                            assert forall|i: int, j: int|
                                0 <= i < j < res@.len() implies res@[i] != res@[j] by {
                                if j == prev.len() {
                                    assert(prev.contains(prev[i]));
                                }
                            }
                            assert(res@.no_duplicates());
                        }
                    } else {
                        proof {
                            assert(!self.in_radius(radius as int, skip_center, here));
                        }
                    }
                }
                y = y + 1;
            }
            x = x + 1;
        }
        res
    }

    /// The continuous position of this tile's centre, in milli-units.
    pub fn to_world_milli(&self) -> (p: (i64, i64))
        requires
            -GRID_LIMIT <= self.x <= GRID_LIMIT,
            -GRID_LIMIT <= self.y <= GRID_LIMIT,
        ensures
            p.0 == self.x * TILE_SIZE_MILLI + TILE_SIZE_MILLI / 2,
            p.1 == self.y * TILE_SIZE_MILLI + TILE_SIZE_MILLI / 2,
    {
        (
            self.x as i64 * TILE_SIZE_MILLI + TILE_SIZE_MILLI / 2,
            self.y as i64 * TILE_SIZE_MILLI + TILE_SIZE_MILLI / 2,
        )
    }
}

/// Appends a coordinate unless it is already present.
#[verifier::loop_isolation(false)]
fn push_unique(v: &mut Vec<GridCoords>, c: GridCoords)
    requires
        old(v)@.no_duplicates(),
    ensures
        final(v)@.no_duplicates(),
        forall|d: GridCoords| #[trigger]
            final(v)@.contains(d) <==> (old(v)@.contains(d) || d == c),
{
    let mut i: usize = 0;
    while i < v.len()
        invariant
            0 <= i <= v@.len(),
            forall|j: int| 0 <= j < i ==> v@[j] != c,
        decreases v@.len() - i,
    {
        if v[i] == c {
            proof {
                assert(v@.contains(c));
            }
            return ;
        }
        i = i + 1;
    }
    let ghost prev = v@;
    proof {
        assert(!prev.contains(c));
    }
    v.push(c);
    proof {
        assert(v@[prev.len() as int] == c);
        assert forall|d: GridCoords| #[trigger] v@.contains(d) <==> (prev.contains(d) || d == c) by {
            if v@.contains(d) {
                let k = choose|k: int| 0 <= k < v@.len() && v@[k] == d;
                if k < prev.len() {
                    assert(prev.contains(d));
                } else {
                    assert(d == c);
                }
            }
            if prev.contains(d) {
                let k = choose|k: int| 0 <= k < prev.len() && prev[k] == d;
                assert(v@[k] == d);
                assert(v@.contains(d));
            }
            if d == c {
                assert(v@.contains(d));
            }
        }
        assert forall|i2: int, j2: int| 0 <= i2 < j2 < v@.len() implies v@[i2] != v@[j2] by {
            if j2 == prev.len() {
                assert(prev.contains(prev[i2]));
            }
        }
        assert(v@.no_duplicates());
    }
}

/// The tile owning the given continuous coordinate: each tile owns the
/// half-open span from its lower edge up to the next tile's.
pub open spec fn grid_axis_spec(p: int) -> int {
    p / (TILE_SIZE_MILLI as int)
}

/// Converts a continuous position in milli-units to the tile it lies in.
pub fn translation_to_grid_coords(x_milli: i64, y_milli: i64) -> (c: GridCoords)
    requires
        -1_000_000_000_000 <= x_milli <= 1_000_000_000_000,
        -1_000_000_000_000 <= y_milli <= 1_000_000_000_000,
    ensures
        c.x == grid_axis_spec(x_milli as int),
        c.y == grid_axis_spec(y_milli as int),
{
    let gx: i64 = x_milli.checked_div_euclid(TILE_SIZE_MILLI).unwrap();
    let gy: i64 = y_milli.checked_div_euclid(TILE_SIZE_MILLI).unwrap();
    proof {
        crate::math::lemma_div_fits_i64(x_milli as int, TILE_SIZE_MILLI as int);
        crate::math::lemma_div_fits_i64(y_milli as int, TILE_SIZE_MILLI as int);
        vstd::arithmetic::div_mod::lemma_div_is_ordered(
            x_milli as int,
            1_000_000_000_000,
            TILE_SIZE_MILLI as int,
        );
        vstd::arithmetic::div_mod::lemma_div_is_ordered(
            -1_000_000_000_000,
            x_milli as int,
            TILE_SIZE_MILLI as int,
        );
        vstd::arithmetic::div_mod::lemma_div_is_ordered(
            y_milli as int,
            1_000_000_000_000,
            TILE_SIZE_MILLI as int,
        );
        vstd::arithmetic::div_mod::lemma_div_is_ordered(
            -1_000_000_000_000,
            y_milli as int,
            TILE_SIZE_MILLI as int,
        );
        assert(1_000_000_000_000int / 32_000int < GRID_LIMIT);
        assert((-1_000_000_000_000int) / 32_000int > -GRID_LIMIT);
    }
    GridCoords { x: gx as i32, y: gy as i32 }
}

/// The value stored under `k` in an association list, later entries
/// shadowing earlier ones.
pub open spec fn assoc_get(s: Seq<(GridCoords, u64)>, k: GridCoords) -> Option<u64>
    decreases s.len(),
{
    if s.len() == 0 {
        None
    } else if s.last().0 == k {
        Some(s.last().1)
    } else {
        assoc_get(s.drop_last(), k)
    }
}

/// No two entries share a key.
pub open spec fn distinct_keys(s: Seq<(GridCoords, u64)>) -> bool {
    forall|i: int, j: int| 0 <= i < j < s.len() ==> (#[trigger] s[i]).0 != (#[trigger] s[j]).0
}

proof fn lemma_assoc_get_at(s: Seq<(GridCoords, u64)>, i: int)
    requires
        distinct_keys(s),
        0 <= i < s.len(),
    ensures
        assoc_get(s, s[i].0) == Some(s[i].1),
    decreases s.len(),
{
    if i == s.len() - 1 {
    } else {
        assert(s.last().0 != s[i].0);
        assert(s.drop_last()[i] == s[i]);
        lemma_assoc_get_at(s.drop_last(), i);
    }
}

proof fn lemma_assoc_get_none(s: Seq<(GridCoords, u64)>, k: GridCoords)
    requires
        forall|i: int| 0 <= i < s.len() ==> (#[trigger] s[i]).0 != k,
    ensures
        assoc_get(s, k) == None::<u64>,
    decreases s.len(),
{
    if s.len() > 0 {
        assert(s.drop_last() =~= s.take(s.len() - 1));
        lemma_assoc_get_none(s.drop_last(), k);
    }
}

proof fn lemma_assoc_get_remove(s: Seq<(GridCoords, u64)>, i: int, k: GridCoords)
    requires
        distinct_keys(s),
        0 <= i < s.len(),
        k != s[i].0,
    ensures
        assoc_get(s.remove(i), k) == assoc_get(s, k),
    decreases s.len(),
{
    if i == s.len() - 1 {
        assert(s.remove(i) =~= s.drop_last());
    } else {
        assert(s.remove(i).last() == s.last());
        assert(s.remove(i).drop_last() =~= s.drop_last().remove(i));
        assert(s.drop_last()[i] == s[i]);
        if s.last().0 != k {
            lemma_assoc_get_remove(s.drop_last(), i, k);
        }
    }
}

/// The level's mapping from tile coordinates to the entity occupying that
/// tile.
pub struct LevelEntityLookup {
    pub entries: Vec<(GridCoords, u64)>,
}

impl LevelEntityLookup {
    pub open spec fn wf(self) -> bool {
        distinct_keys(self.entries@)
    }

    /// The mapping as a mathematical map.
    pub open spec fn contents(self) -> Map<GridCoords, u64> {
        Map::new(
            |k: GridCoords| assoc_get(self.entries@, k) is Some,
            |k: GridCoords| assoc_get(self.entries@, k)->Some_0,
        )
    }

    pub fn new() -> (l: LevelEntityLookup)
        ensures
            l.wf(),
            l.contents() == Map::<GridCoords, u64>::empty(),
    {
        let l = LevelEntityLookup { entries: Vec::new() };
        proof {
            assert(l.contents() =~= Map::<GridCoords, u64>::empty());
        }
        l
    }

    #[verifier::loop_isolation(false)]
    pub fn get(&self, coords: &GridCoords) -> (r: Option<u64>)
        requires
            self.wf(),
        ensures
            r == if self.contents().dom().contains(*coords) {
                Some(self.contents()[*coords])
            } else {
                None
            },
    {
        let mut i: usize = 0;
        while i < self.entries.len()
            invariant
                0 <= i <= self.entries@.len(),
                forall|j: int| 0 <= j < i ==> (#[trigger] self.entries@[j]).0 != *coords,
                self.wf(),
            decreases self.entries@.len() - i,
        {
            let (k, v) = self.entries[i];
            if k == *coords {
                proof {
                    lemma_assoc_get_at(self.entries@, i as int);
                }
                return Some(v);
            }
            i = i + 1;
        }
        proof {
            lemma_assoc_get_none(self.entries@, *coords);
        }
        None
    }

    /// Removes the entry for `coords`, returning the entity that was
    /// stored there.
    #[verifier::loop_isolation(false)]
    pub fn remove(&mut self, coords: &GridCoords) -> (r: Option<u64>)
        requires
            old(self).wf(),
        ensures
            final(self).wf(),
            final(self).contents() == old(self).contents().remove(*coords),
            r == if old(self).contents().dom().contains(*coords) {
                Some(old(self).contents()[*coords])
            } else {
                None
            },
    {
        let ghost s0 = self.entries@;
        let mut i: usize = 0;
        while i < self.entries.len()
            invariant
                0 <= i <= self.entries@.len(),
                forall|j: int| 0 <= j < i ==> (#[trigger] self.entries@[j]).0 != *coords,
                self.wf(),
                self.entries@ == s0,
            decreases self.entries@.len() - i,
        {
            let (k, v) = self.entries[i];
            if k == *coords {
                proof {
                    lemma_assoc_get_at(s0, i as int);
                    assert(s0[i as int].0 == *coords);
                    assert(assoc_get(s0, *coords) == Some(v));
                }
                self.entries.remove(i);
                proof {
                    assert(self.entries@ == s0.remove(i as int));
                    assert forall|j: int| 0 <= j < self.entries@.len() implies (
                    #[trigger] self.entries@[j]).0 != *coords by {
                        assert(s0[i as int].0 == *coords);
                        if j < i {
                            assert(self.entries@[j] == s0[j]);
                        } else {
                            assert(self.entries@[j] == s0[j + 1]);
                        }
                    }
                    lemma_assoc_get_none(self.entries@, *coords);
                    assert forall|j: int, j2: int|
                        0 <= j < j2 < self.entries@.len() implies (#[trigger] self.entries@[j]).0
                        != (#[trigger] self.entries@[j2]).0 by {
                        let a = if j < i {
                            j
                        } else {
                            j + 1
                        };
                        let b = if j2 < i {
                            j2
                        } else {
                            j2 + 1
                        };
                        assert(self.entries@[j] == s0[a] && self.entries@[j2] == s0[b]);
                        assert(s0[a].0 != s0[b].0);
                    }
                    assert forall|k2: GridCoords| #![trigger assoc_get(self.entries@, k2)]
                        assoc_get(self.entries@, k2) == if k2 == *coords {
                            None
                        } else {
                            assoc_get(s0, k2)
                        } by {
                        if k2 != *coords {
                            lemma_assoc_get_remove(s0, i as int, k2);
                        }
                    }
                    assert(old(self).entries@ == s0);
                    assert(self.contents().dom() =~= old(self).contents().remove(*coords).dom());
                    assert(self.contents() =~= old(self).contents().remove(*coords));
                    assert(old(self).contents().dom().contains(*coords));
                    assert(old(self).contents()[*coords] == v);
                }
                return Some(v);
            }
            i = i + 1;
        }
        proof {
            lemma_assoc_get_none(s0, *coords);
            assert(self.contents() =~= old(self).contents().remove(*coords));
        }
        None
    }

    /// Inserts or replaces the entry for `coords`.
    pub fn insert(&mut self, coords: GridCoords, entity: u64)
        requires
            old(self).wf(),
        ensures
            final(self).wf(),
            final(self).contents() == old(self).contents().insert(coords, entity),
    {
        let _ = self.remove(&coords);
        let ghost s1 = self.entries@;
        proof {
            assert forall|j: int| 0 <= j < s1.len() implies (#[trigger] s1[j]).0 != coords by {
                if s1[j].0 == coords {
                    lemma_assoc_get_at(s1, j);
                    assert(self.contents().dom().contains(coords));
                }
            }
        }
        self.entries.push((coords, entity));
        proof {
            let target = old(self).contents().insert(coords, entity);
            let mid = old(self).contents().remove(coords);
            assert(self.entries@.drop_last() =~= s1);
            assert(assoc_get(self.entries@, coords) == Some(entity));
            assert forall|k2: GridCoords| k2 != coords implies assoc_get(self.entries@, k2)
                == assoc_get(s1, k2) by {
                assert(self.entries@.last().0 == coords);
            }
            assert forall|j: int, j2: int|
                0 <= j < j2 < self.entries@.len() implies (#[trigger] self.entries@[j]).0 != (
            #[trigger] self.entries@[j2]).0 by {
                if j2 < self.entries@.len() - 1 {
                    assert(s1[j].0 != s1[j2].0);
                } else {
                    assert(self.entries@[j] == s1[j]);
                }
            }
            assert forall|k2: GridCoords|
                (#[trigger] self.contents().dom().contains(k2) <==> target.dom().contains(k2))
                    && (self.contents().dom().contains(k2) ==> self.contents()[k2]
                    == target[k2]) by {
                if k2 != coords {
                    assert(assoc_get(self.entries@, k2) == assoc_get(s1, k2));
                    assert(mid.dom().contains(k2) <==> assoc_get(s1, k2) is Some);
                    assert(mid.dom().contains(k2) ==> mid[k2] == assoc_get(s1, k2)->Some_0);
                }
            }
            assert(self.contents() =~= target);
        }
    }

    /// Moves `entity` from its old tile to a new one in a single step.
    pub fn upsert(&mut self, entity: u64, old_coords: &GridCoords, new_coords: GridCoords)
        requires
            old(self).wf(),
        ensures
            final(self).wf(),
            final(self).contents() == old(self).contents().remove(*old_coords).insert(
                new_coords,
                entity,
            ),
    {
        let _ = self.remove(old_coords);
        self.insert(new_coords, entity);
    }
}

/// The lookup contents after dropping every tile a batch of events
/// finished.
pub open spec fn remove_finished_spec(
    contents: Map<GridCoords, u64>,
    events: Seq<crate::word::WordTileEvent>,
) -> Map<GridCoords, u64>
    decreases events.len(),
{
    if events.len() == 0 {
        contents
    } else {
        let prev = remove_finished_spec(contents, events.drop_last());
        match events.last().kind {
            crate::word::WordTileEventKind::TileFinished { coords, .. } => prev.remove(coords),
            _ => prev,
        }
    }
}

/// Drops finished tiles from the lookup, so later steps no longer see
/// them as occupied.
#[verifier::loop_isolation(false)]
pub fn remove_tile_from_cache(
    events: &Vec<crate::word::WordTileEvent>,
    lookup: &mut LevelEntityLookup,
)
    requires
        old(lookup).wf(),
    ensures
        final(lookup).wf(),
        final(lookup).contents() == remove_finished_spec(old(lookup).contents(), events@),
{
    let mut i: usize = 0;
    while i < events.len()
        invariant
            0 <= i <= events@.len(),
            lookup.wf(),
            lookup.contents() == remove_finished_spec(old(lookup).contents(), events@.take(i as int)),
        decreases events@.len() - i,
    {
        proof {
            assert(events@.take(i + 1).drop_last() =~= events@.take(i as int));
            assert(events@.take(i + 1).last() == events@[i as int]);
        }
        match &events[i].kind {
            crate::word::WordTileEventKind::TileFinished { coords, .. } => {
                let _ = lookup.remove(coords);
            },
            _ => {},
        }
        i = i + 1;
    }
    proof {
        assert(events@.take(events@.len() as int) =~= events@);
    }
}

/// Tween configuration for an entity that glides between tiles.
pub struct Movable {
    pub tween_duration_ms: u64,
    pub easing: Option<EaseKind>,
}

/// The easing curves the presentation layer distinguishes.
#[derive(Clone, Copy, Debug, PartialEq, Eq, Structural)]
pub enum EaseKind {
    QuadraticIn,
    QuadraticOut,
    QuadraticInOut,
}

impl Default for Movable {
    fn default() -> (m: Movable)
        ensures
            m.tween_duration_ms == 110,
            m.easing is None,
    {
        Movable { tween_duration_ms: 110, easing: None }
    }
}

/// Marker for an entity currently tweening between tiles.
pub struct Moving;

} // verus!
