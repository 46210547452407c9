use vstd::prelude::*;
use vstd::arithmetic::div_mod::lemma_fundamental_div_mod;
use vstd::arithmetic::div_mod::lemma_fundamental_div_mod_converse;
use crate::maze::{Maze, WallType, MAX_CELLS, MAX_TILE, wall_at, wall_type_at};

verus! {

/// The length of a unit direction vector: direction components are fixed-point
/// fractions of this value.
pub const DIR_ONE: i64 = 65536;

/// Largest magnitude of a direction component.
pub const DIR_MAX: i64 = 131072;

/// Largest magnitude of a world coordinate of a ray origin.
pub const MAX_COORD: i64 = 1099511627776;

/// Texture-U coordinates are fixed-point fractions of this value.
pub const TEX_U_ONE: u32 = 65536;

/// Bound on the side distances that traversal accumulates.
pub const SIDE_MAX: i64 = 4398046511104;

/// A ray direction, each component a fixed-point fraction of `DIR_ONE`.
#[derive(Clone, Copy, Debug, PartialEq, Eq, Structural)]
pub struct RayDir {
    pub x: i64,
    pub y: i64,
}

impl RayDir {
    pub open spec fn in_range(&self) -> bool {
        -DIR_MAX <= self.x <= DIR_MAX && -DIR_MAX <= self.y <= DIR_MAX
    }
}

/// What one ray met.
#[derive(Clone, Copy, Debug, PartialEq, Eq, Structural)]
pub struct RayHit {
    /// Distance to the hit in world units, measured along the ray so that a direction of
    /// length `DIR_ONE` gives the Euclidean distance.
    pub distance: u64,
    /// Where along the wall face the ray struck, as a fraction of `TEX_U_ONE`.
    pub wall_x: u32,
    /// The ray crossed a vertical grid line (constant x) last.
    pub hit_vertical: bool,
    pub wall_type: WallType,
    pub map_x: i64,
    pub map_y: i64,
    /// The direction the ray was cast in.
    pub dir: RayDir,
}

/// The state of a grid traversal: the current cell, the distances (scaled by the other
/// axis' direction magnitude) to the next vertical and horizontal grid lines, the scaled
/// distance at which the last line was crossed, and which kind of line that was.
pub struct Traversal {
    pub map_x: int,
    pub map_y: int,
    pub side_x: int,
    pub side_y: int,
    pub num: int,
    pub vertical: bool,
}

pub open spec fn abs(a: int) -> int {
    if a < 0 { -a } else { a }
}

pub open spec fn sign(a: int) -> int {
    if a < 0 { -1 } else { 1 }
}

/// The traversal before any grid line is crossed: the cell holding the origin, and the
/// distance along each axis to the first line in the direction of travel.
pub open spec fn start(ox: int, oy: int, dx: int, dy: int, tile: int) -> Traversal {
    let mx = ox / tile;
    let my = oy / tile;
    Traversal {
        map_x: mx,
        map_y: my,
        side_x: if dx < 0 { ox - mx * tile } else { (mx + 1) * tile - ox },
        side_y: if dy < 0 { oy - my * tile } else { (my + 1) * tile - oy },
        num: 0,
        vertical: false,
    }
}

/// Crosses the nearer of the next vertical and horizontal grid lines. The comparison
/// `side_x / |dx| < side_y / |dy|` is made exactly, by cross-multiplying.
pub open spec fn advance(s: Traversal, dx: int, dy: int, tile: int) -> Traversal {
    if s.side_x * abs(dy) < s.side_y * abs(dx) {
        Traversal {
            map_x: s.map_x + sign(dx),
            side_x: s.side_x + tile,
            num: s.side_x,
            vertical: true,
            ..s
        }
    } else {
        Traversal {
            map_y: s.map_y + sign(dy),
            side_y: s.side_y + tile,
            num: s.side_y,
            vertical: false,
            ..s
        }
    }
}

/// Cells left between the current one and the grid's far edges in the direction of travel.
pub open spec fn remaining(m: &Maze, dx: int, dy: int, s: Traversal) -> int {
    (if dx < 0 { s.map_x + 1 } else { m.width - s.map_x })
        + (if dy < 0 { s.map_y + 1 } else { m.height - s.map_y })
}

/// Advances until the cell entered is opaque or off the grid.
pub open spec fn traverse(m: &Maze, dx: int, dy: int, s: Traversal) -> Traversal
    decreases (if remaining(m, dx, dy, s) > 0 { remaining(m, dx, dy, s) } else { 0 }),
{
    let n = advance(s, dx, dy, m.tile_size as int);
    if m.blocks(n.map_x, n.map_y) {
        n
    } else {
        traverse(m, dx, dy, n)
    }
}

/// The distance to the last line crossed, rescaled so that a direction of length
/// `DIR_ONE` measures world units; zero where the ray does not move along that axis.
pub open spec fn hit_distance(s: Traversal, dx: int, dy: int) -> int {
    let den = if s.vertical { abs(dx) } else { abs(dy) };
    if den == 0 { 0 } else { s.num * DIR_ONE / den }
}

/// The world coordinate, along the wall face, of the point where the ray met it.
pub open spec fn hit_coord(s: Traversal, ox: int, oy: int, dx: int, dy: int) -> int {
    if s.vertical {
        if dx == 0 { oy } else { (oy * abs(dx) + s.num * dy) / abs(dx) }
    } else {
        if dy == 0 { ox } else { (ox * abs(dy) + s.num * dx) / abs(dy) }
    }
}

/// The fractional position of a coordinate within its tile, as a fraction of `TEX_U_ONE`.
pub open spec fn tex_u(coord: int, tile: int) -> int {
    (coord % tile) * TEX_U_ONE / tile
}

/// The magnitude of the hit's direction along the axis of the grid line crossed last.
pub open spec fn face_component(hit: RayHit) -> int {
    if hit.hit_vertical { abs(hit.dir.x as int) } else { abs(hit.dir.y as int) }
}

/// The offset, along the axis of the grid line crossed last, from the origin to the face
/// struck: the near side of the hit cell in the direction of travel.
pub open spec fn face_offset(hit: RayHit, ox: int, oy: int, tile: int) -> int {
    if hit.hit_vertical {
        if hit.dir.x < 0 { ox - (hit.map_x + 1) * tile } else { hit.map_x * tile - ox }
    } else {
        if hit.dir.y < 0 { oy - (hit.map_y + 1) * tile } else { hit.map_y * tile - oy }
    }
}

/// The hit that a ray from (ox, oy) in direction `d` makes in `m`.
pub open spec fn cast_spec(m: &Maze, ox: int, oy: int, d: RayDir) -> RayHit {
    let tile = m.tile_size as int;
    let t = traverse(m, d.x as int, d.y as int, start(ox, oy, d.x as int, d.y as int, tile));
    RayHit {
        distance: hit_distance(t, d.x as int, d.y as int) as u64,
        wall_x: tex_u(hit_coord(t, ox, oy, d.x as int, d.y as int), tile) as u32,
        hit_vertical: t.vertical,
        wall_type: wall_type_at(m.map@, t.map_x, t.map_y),
        map_x: t.map_x as i64,
        map_y: t.map_y as i64,
        dir: d,
    }
}

/// Every cell on the outer ring of the grid is opaque.
pub open spec fn bordered(m: &Maze) -> bool {
    forall|x: int, y: int| 0 <= x < m.width && 0 <= y < m.height
        && (x == 0 || y == 0 || x == m.width - 1 || y == m.height - 1) ==> #[trigger] wall_at(m.map@, x, y)
}

/// A traversal state from which the walk stays inside the grid: its cell is on the grid
/// and open, and its side distances are positive and measured from the origin.
pub open spec fn inside_state(m: &Maze, ox: int, oy: int, dx: int, dy: int, s: Traversal) -> bool {
    let tile = m.tile_size as int;
    &&& 0 <= s.map_x < m.width
    &&& 0 <= s.map_y < m.height
    &&& !wall_at(m.map@, s.map_x, s.map_y)
    &&& s.side_x > 0
    &&& s.side_y > 0
    &&& s.side_x == (if dx < 0 { ox - s.map_x * tile } else { (s.map_x + 1) * tile - ox })
    &&& s.side_y == (if dy < 0 { oy - s.map_y * tile } else { (s.map_y + 1) * tile - oy })
}

/// From an inside state of a bordered grid, the walk ends on an opaque cell of the grid,
/// and the line it crossed last lies within the grid's extent along both axes.
proof fn lemma_traverse_inside(m: &Maze, ox: int, oy: int, dx: int, dy: int, s: Traversal)
    requires
        m.wf(),
        bordered(m),
        0 <= ox < m.width * m.tile_size,
        0 <= oy < m.height * m.tile_size,
        dx != 0 || dy != 0,
        inside_state(m, ox, oy, dx, dy, s),
    ensures
        ({
            let r = traverse(m, dx, dy, s);
            let w = m.width * m.tile_size;
            let h = m.height * m.tile_size;
            &&& 0 <= r.map_x < m.width
            &&& 0 <= r.map_y < m.height
            &&& r.num > 0
            &&& r.vertical ==> abs(dx) > 0 && r.num <= w && r.num * abs(dy) <= h * abs(dx)
            &&& !r.vertical ==> abs(dy) > 0 && r.num <= h && r.num * abs(dx) <= w * abs(dy)
        }),
    decreases (if remaining(m, dx, dy, s) > 0 { remaining(m, dx, dy, s) } else { 0 }),
{
    let tile = m.tile_size as int;
    let wt = m.width * m.tile_size;
    let ht = m.height * m.tile_size;
    let n = advance(s, dx, dy, tile);
    assert(s.map_x * tile >= 0 && s.map_y * tile >= 0) by (nonlinear_arith)
        requires s.map_x >= 0, s.map_y >= 0, tile >= 0;
    assert((s.map_x + 1) * tile == s.map_x * tile + tile) by (nonlinear_arith);
    assert((s.map_y + 1) * tile == s.map_y * tile + tile) by (nonlinear_arith);
    assert((s.map_x + 1) * tile <= wt) by (nonlinear_arith)
        requires s.map_x + 1 <= m.width, tile >= 0, wt == m.width * tile;
    assert((s.map_y + 1) * tile <= ht) by (nonlinear_arith)
        requires s.map_y + 1 <= m.height, tile >= 0, ht == m.height * tile;
    assert(s.side_x <= wt && s.side_y <= ht);
    if s.side_x * abs(dy) < s.side_y * abs(dx) {
        if abs(dx) == 0 {
            assert(s.side_x * abs(dy) >= 0) by (nonlinear_arith)
                requires s.side_x > 0, abs(dy) >= 0;
        }
        assert(s.side_y * abs(dx) <= ht * abs(dx)) by (nonlinear_arith)
            requires s.side_y <= ht, abs(dx) >= 0;
        if n.map_x < 0 || n.map_x >= m.width {
            assert(wall_at(m.map@, s.map_x, s.map_y));
        }
    } else {
        if abs(dy) == 0 {
            assert(s.side_y * abs(dx) > 0) by (nonlinear_arith)
                requires s.side_y > 0, abs(dx) > 0;
        }
        assert(s.side_x * abs(dy) <= wt * abs(dy)) by (nonlinear_arith)
            requires s.side_x <= wt, abs(dy) >= 0;
        if n.map_y < 0 || n.map_y >= m.height {
            assert(wall_at(m.map@, s.map_x, s.map_y));
        }
    }
    if !m.blocks(n.map_x, n.map_y) {
        assert((s.map_x + sign(dx)) * tile == s.map_x * tile + sign(dx) * tile) by (nonlinear_arith);
        assert((s.map_y + sign(dy)) * tile == s.map_y * tile + sign(dy) * tile) by (nonlinear_arith);
        assert((s.map_x + sign(dx) + 1) * tile == s.map_x * tile + sign(dx) * tile + tile) by (nonlinear_arith);
        assert((s.map_y + sign(dy) + 1) * tile == s.map_y * tile + sign(dy) * tile + tile) by (nonlinear_arith);
        lemma_traverse_inside(m, ox, oy, dx, dy, n);
    }
}

/// A ray cast from strictly inside an open cell of a grid whose outer ring is all walls,
/// in a nonzero direction whose components are at most `DIR_ONE`, returns a positive
/// distance, and the hit point lies within the grid's extent along each axis: the
/// distance times each direction component is at most the grid's size on that axis
/// (in world units) times `DIR_ONE`. For a direction of length at least `DIR_ONE` the
/// distance is at most the grid's diagonal.
pub proof fn lemma_cast_from_open_cell(m: &Maze, ox: int, oy: int, d: RayDir)
    requires
        m.wf(),
        bordered(m),
        0 <= ox < m.width * m.tile_size,
        0 <= oy < m.height * m.tile_size,
        ox % (m.tile_size as int) != 0,
        oy % (m.tile_size as int) != 0,
        !wall_at(m.map@, ox / (m.tile_size as int), oy / (m.tile_size as int)),
        d.x != 0 || d.y != 0,
        -DIR_ONE <= d.x <= DIR_ONE,
        -DIR_ONE <= d.y <= DIR_ONE,
    ensures
        cast_spec(m, ox, oy, d).distance > 0,
        cast_spec(m, ox, oy, d).distance * abs(d.x as int) <= m.width * m.tile_size * DIR_ONE,
        cast_spec(m, ox, oy, d).distance * abs(d.y as int) <= m.height * m.tile_size * DIR_ONE,
        ({
            let dist = cast_spec(m, ox, oy, d).distance as int;
            let w = m.width * m.tile_size;
            let h = m.height * m.tile_size;
            &&& dist * dist * (d.x * d.x + d.y * d.y) <= (w * w + h * h) * (DIR_ONE * DIR_ONE)
            &&& d.x * d.x + d.y * d.y >= DIR_ONE * DIR_ONE ==> dist * dist <= w * w + h * h
        }),
{
    let tile = m.tile_size as int;
    let dx = d.x as int;
    let dy = d.y as int;
    let wt = m.width * m.tile_size;
    let ht = m.height * m.tile_size;
    let s0 = start(ox, oy, dx, dy, tile);
    lemma_fundamental_div_mod(ox, tile);
    lemma_fundamental_div_mod(oy, tile);
    assert(s0.map_x * tile == tile * s0.map_x) by (nonlinear_arith);
    assert(s0.map_y * tile == tile * s0.map_y) by (nonlinear_arith);
    assert((s0.map_x + 1) * tile == s0.map_x * tile + tile) by (nonlinear_arith);
    assert((s0.map_y + 1) * tile == s0.map_y * tile + tile) by (nonlinear_arith);
    vstd::arithmetic::div_mod::lemma_div_pos_is_pos(ox, tile);
    vstd::arithmetic::div_mod::lemma_div_pos_is_pos(oy, tile);
    assert(s0.map_x < m.width) by (nonlinear_arith)
        requires ox == tile * s0.map_x + ox % tile, 0 <= ox % tile, ox < m.width * tile, tile > 0;
    assert(s0.map_y < m.height) by (nonlinear_arith)
        requires oy == tile * s0.map_y + oy % tile, 0 <= oy % tile, oy < m.height * tile, tile > 0;
    lemma_traverse_inside(m, ox, oy, dx, dy, s0);
    let r = traverse(m, dx, dy, s0);
    let den = if r.vertical { abs(dx) } else { abs(dy) };
    let other = if r.vertical { abs(dy) } else { abs(dx) };
    let near = if r.vertical { wt } else { ht };
    let far = if r.vertical { ht } else { wt };
    let dist = r.num * DIR_ONE / den;
    assert(hit_distance(r, dx, dy) == dist);
    lemma_fundamental_div_mod(r.num * DIR_ONE, den);
    let rem = (r.num * DIR_ONE) % den;
    assert(dist >= 1) by (nonlinear_arith)
        requires r.num * DIR_ONE == den * dist + rem, rem < den, r.num >= 1, 0 < den <= DIR_ONE;
    assert(dist * den <= near * DIR_ONE) by (nonlinear_arith)
        requires r.num * DIR_ONE == den * dist + rem, rem >= 0, r.num <= near;
    assert(dist * other <= far * DIR_ONE) by (nonlinear_arith)
        requires r.num * DIR_ONE == den * dist + rem, rem >= 0, r.num * other <= far * den, den > 0,
            other >= 0, dist >= 0;
    assert(dist <= near * DIR_ONE) by (nonlinear_arith)
        requires dist * den <= near * DIR_ONE, den >= 1, dist >= 0;
    assert(near <= MAX_CELLS * MAX_TILE) by (nonlinear_arith)
        requires near == wt || near == ht, wt == m.width * m.tile_size, ht == m.height * m.tile_size,
            m.width <= MAX_CELLS, m.height <= MAX_CELLS, m.tile_size <= MAX_TILE;
    assert(cast_spec(m, ox, oy, d).distance as int == dist);
    let a = dist * abs(dx);
    let b = dist * abs(dy);
    assert(abs(dx) * abs(dx) == dx * dx) by (nonlinear_arith)
        requires abs(dx) == dx || abs(dx) == -dx;
    assert(abs(dy) * abs(dy) == dy * dy) by (nonlinear_arith)
        requires abs(dy) == dy || abs(dy) == -dy;
    assert(a * a <= (wt * DIR_ONE) * (wt * DIR_ONE)) by (nonlinear_arith)
        requires 0 <= a <= wt * DIR_ONE;
    assert(b * b <= (ht * DIR_ONE) * (ht * DIR_ONE)) by (nonlinear_arith)
        requires 0 <= b <= ht * DIR_ONE;
    assert(dist * dist * (dx * dx + dy * dy) == a * a + b * b) by (nonlinear_arith)
        requires a == dist * abs(dx), b == dist * abs(dy), abs(dx) * abs(dx) == dx * dx,
            abs(dy) * abs(dy) == dy * dy;
    assert((wt * DIR_ONE) * (wt * DIR_ONE) + (ht * DIR_ONE) * (ht * DIR_ONE) == (wt * wt + ht * ht) * (DIR_ONE * DIR_ONE)) by (nonlinear_arith);
    if dx * dx + dy * dy >= DIR_ONE * DIR_ONE {
        let q = dx * dx + dy * dy;
        assert(dist * dist * (DIR_ONE * DIR_ONE) <= dist * dist * q) by (nonlinear_arith)
            requires q >= DIR_ONE * DIR_ONE, dist >= 0;
        assert(dist * dist <= wt * wt + ht * ht) by (nonlinear_arith)
            requires
                dist * dist * (DIR_ONE * DIR_ONE) <= dist * dist * q,
                dist * dist * q <= (wt * wt + ht * ht) * (DIR_ONE * DIR_ONE);
    }
}

/// Floor division by a positive divisor.
pub(crate) fn floor_div(a: i64, b: i64) -> (q: i64)
    requires
        0 < b <= 0x1_0000_0000,
        -0x1000_0000_0000_0000 <= a <= 0x1000_0000_0000_0000,
    ensures
        q == a as int / b as int,
        a >= 0 ==> 0 <= q <= a,
        a < 0 ==> a <= q <= 0,
{
    if a >= 0 {
        let q: u64 = (a as u64) / (b as u64);
        assert(q as int == a as int / b as int);
        assert(q as int <= a as int) by (nonlinear_arith)
            requires
                q as int == a as int / b as int,
                a >= 0,
                b >= 1;
        q as i64
    } else {
        let na: u64 = (-a) as u64;
        let x: u64 = na + (b as u64) - 1;
        let qn: u64 = x / (b as u64);
        proof {
            lemma_fundamental_div_mod(x as int, b as int);
            let r = x as int % (b as int);
            assert(qn as int == x as int / (b as int));
            assert(a as int == (-(qn as int)) * b as int + (b as int - 1 - r)) by (nonlinear_arith)
                requires
                    x as int == (b as int) * (qn as int) + r,
                    x as int == na as int + b as int - 1,
                    na as int == -(a as int);
            lemma_fundamental_div_mod_converse(a as int, b as int, -(qn as int), b as int - 1 - r);
            assert(qn as int <= x as int) by (nonlinear_arith)
                requires
                    x as int == (b as int) * (qn as int) + r,
                    0 <= r,
                    b >= 1,
                    qn >= 0;
            assert(qn as int <= -(a as int)) by (nonlinear_arith)
                requires
                    x as int == (b as int) * (qn as int) + r,
                    x as int == -(a as int) + b as int - 1,
                    0 <= r,
                    b >= 1,
                    a < 0;
        }
        -(qn as i64)
    }
}

/// The remainder of floor division by a positive divisor.
fn floor_mod(a: i64, b: i64) -> (r: i64)
    requires
        0 < b <= 0x1_0000_0000,
        -0x1000_0000_0000_0000 <= a <= 0x1000_0000_0000_0000,
    ensures
        r == a as int % b as int,
        0 <= r < b,
{
    let q = floor_div(a, b);
    proof {
        lemma_fundamental_div_mod(a as int, b as int);
    }
    a - q * b
}

/// Casts rays through a maze, one per direction handed in.
pub struct RayCaster {
    pub num_rays: usize,
    /// Distance, in world units, at which distance shading reaches its darkest.
    pub max_depth: u64,
}

impl RayCaster {
    pub fn new(num_rays: usize, max_depth: u64) -> (rc: RayCaster)
        ensures
            rc.num_rays == num_rays,
            rc.max_depth == max_depth,
    {
        RayCaster { num_rays, max_depth }
    }

    /// One hit per direction, in order: the directions are the columns of the screen,
    /// left to right, `num_rays` of them.
    pub fn cast_rays(&self, origin_x: i64, origin_y: i64, dirs: &Vec<RayDir>, maze: &Maze) -> (hits: Vec<RayHit>)
        requires
            dirs@.len() == self.num_rays,
            maze.wf(),
            forall|i: int| 0 <= i < dirs@.len() ==> (#[trigger] dirs@[i]).in_range(),
            -MAX_COORD <= origin_x <= MAX_COORD,
            -MAX_COORD <= origin_y <= MAX_COORD,
        ensures
            hits@.len() == dirs@.len(),
            hits@.len() == self.num_rays,
            forall|i: int| 0 <= i < dirs@.len() ==> #[trigger] hits@[i] == cast_spec(maze, origin_x as int, origin_y as int, dirs@[i]),
            forall|i: int| 0 <= i < hits@.len() ==> (#[trigger] hits@[i]).wall_x < TEX_U_ONE,
    {
        let mut hits: Vec<RayHit> = Vec::with_capacity(dirs.len());
        let mut i: usize = 0;
        while i < dirs.len()
            invariant
                i <= dirs@.len(),
                hits@.len() == i,
                maze.wf(),
                forall|k: int| 0 <= k < dirs@.len() ==> (#[trigger] dirs@[k]).in_range(),
                -MAX_COORD <= origin_x <= MAX_COORD,
                -MAX_COORD <= origin_y <= MAX_COORD,
                forall|k: int| 0 <= k < i ==> #[trigger] hits@[k] == cast_spec(maze, origin_x as int, origin_y as int, dirs@[k]),
                forall|k: int| 0 <= k < i ==> (#[trigger] hits@[k]).wall_x < TEX_U_ONE,
            decreases dirs@.len() - i,
        {
            let hit = self.cast_single_ray(origin_x, origin_y, dirs[i], maze);
            hits.push(hit);
            i = i + 1;
        }
        hits
    }

    /// Walks the grid from the cell holding (origin_x, origin_y) along `dir`, one grid
    /// line at a time, until it enters an opaque cell or leaves the grid.
    ///
    /// The distance is the offset, along the axis of the grid line crossed last, from the
    /// origin to the face struck, divided by the direction's component on that axis (its
    /// cosine to that axis, as a fraction of `DIR_ONE`). So rays toward one flat face
    /// measure the face's perpendicular offset scaled by the inverse cosine of their angle.
    pub fn cast_single_ray(&self, origin_x: i64, origin_y: i64, dir: RayDir, maze: &Maze) -> (hit: RayHit)
        requires
            maze.wf(),
            dir.in_range(),
            -MAX_COORD <= origin_x <= MAX_COORD,
            -MAX_COORD <= origin_y <= MAX_COORD,
        ensures
            hit == cast_spec(maze, origin_x as int, origin_y as int, dir),
            maze.blocks(hit.map_x as int, hit.map_y as int),
            hit.wall_x < TEX_U_ONE,
            hit.wall_type == wall_type_at(maze.map@, hit.map_x as int, hit.map_y as int),
            face_component(hit) > 0 ==> hit.distance == face_offset(hit, origin_x as int, origin_y as int,
                maze.tile_size as int) * DIR_ONE / face_component(hit),
    {
        let tile: i64 = maze.tile_size as i64;
        let dx: i64 = dir.x;
        let dy: i64 = dir.y;
        let adx: i64 = if dx < 0 { -dx } else { dx };
        let ady: i64 = if dy < 0 { -dy } else { dy };
        let step_x: i64 = if dx < 0 { -1 } else { 1 };
        let step_y: i64 = if dy < 0 { -1 } else { 1 };
        let mut map_x: i64 = floor_div(origin_x, tile);
        let mut map_y: i64 = floor_div(origin_y, tile);
        proof {
            lemma_fundamental_div_mod(origin_x as int, tile as int);
            lemma_fundamental_div_mod(origin_y as int, tile as int);
            assert(map_x * tile == tile * map_x) by (nonlinear_arith);
            assert(map_y * tile == tile * map_y) by (nonlinear_arith);
            assert((map_x + 1) * tile == map_x * tile + tile) by (nonlinear_arith);
            assert((map_y + 1) * tile == map_y * tile + tile) by (nonlinear_arith);
        }
        let mut side_x: i64 = if dx < 0 { origin_x - map_x * tile } else { (map_x + 1) * tile - origin_x };
        let mut side_y: i64 = if dy < 0 { origin_y - map_y * tile } else { (map_y + 1) * tile - origin_y };
        let mut num: i64 = 0;
        let mut vertical: bool = false;
        let ghost ox = origin_x as int;
        let ghost oy = origin_y as int;
        let ghost goal = traverse(maze, dx as int, dy as int, start(ox, oy, dx as int, dy as int, tile as int));
        loop
            invariant_except_break
                traverse(maze, dx as int, dy as int, (Traversal {
                    map_x: map_x as int,
                    map_y: map_y as int,
                    side_x: side_x as int,
                    side_y: side_y as int,
                    num: num as int,
                    vertical,
                })) == goal,
                -MAX_COORD - 1 <= map_x <= MAX_COORD + 1,
                -MAX_COORD - 1 <= map_y <= MAX_COORD + 1,
                0 <= side_x <= SIDE_MAX,
                0 <= side_y <= SIDE_MAX,
                0 <= num <= SIDE_MAX,
            invariant
                maze.wf(),
                tile == maze.tile_size,
                adx == abs(dx as int),
                ady == abs(dy as int),
                step_x == sign(dx as int),
                step_y == sign(dy as int),
                0 <= adx <= DIR_MAX,
                0 <= ady <= DIR_MAX,
                -MAX_COORD <= origin_x <= MAX_COORD,
                -MAX_COORD <= origin_y <= MAX_COORD,
                side_x == (if dx < 0 { origin_x - map_x * tile } else { (map_x + 1) * tile - origin_x }),
                side_y == (if dy < 0 { origin_y - map_y * tile } else { (map_y + 1) * tile - origin_y }),
            ensures
                (Traversal {
                    map_x: map_x as int,
                    map_y: map_y as int,
                    side_x: side_x as int,
                    side_y: side_y as int,
                    num: num as int,
                    vertical,
                }) == goal,
                maze.blocks(map_x as int, map_y as int),
                vertical ==> num == (if dx < 0 { origin_x - (map_x + 1) * tile } else { map_x * tile - origin_x }),
                !vertical ==> num == (if dy < 0 { origin_y - (map_y + 1) * tile } else { map_y * tile - origin_y }),
                -MAX_COORD - 2 <= map_x <= MAX_COORD + 2,
                -MAX_COORD - 2 <= map_y <= MAX_COORD + 2,
                0 <= num <= SIDE_MAX,
            decreases remaining(maze, dx as int, dy as int, (Traversal {
                map_x: map_x as int,
                map_y: map_y as int,
                side_x: side_x as int,
                side_y: side_y as int,
                num: num as int,
                vertical,
            })),
        {
            let ghost prev = Traversal {
                map_x: map_x as int,
                map_y: map_y as int,
                side_x: side_x as int,
                side_y: side_y as int,
                num: num as int,
                vertical,
            };
            assert(side_x * ady <= SIDE_MAX * DIR_MAX) by (nonlinear_arith)
                requires 0 <= side_x <= SIDE_MAX, 0 <= ady <= DIR_MAX;
            assert(side_y * adx <= SIDE_MAX * DIR_MAX) by (nonlinear_arith)
                requires 0 <= side_y <= SIDE_MAX, 0 <= adx <= DIR_MAX;
            if side_x * ady < side_y * adx {
                num = side_x;
                side_x = side_x + tile;
                map_x = map_x + step_x;
                vertical = true;
            } else {
                num = side_y;
                side_y = side_y + tile;
                map_y = map_y + step_y;
                vertical = false;
            }
            let ghost cur = Traversal {
                map_x: map_x as int,
                map_y: map_y as int,
                side_x: side_x as int,
                side_y: side_y as int,
                num: num as int,
                vertical,
            };
            assert(cur == advance(prev, dx as int, dy as int, tile as int));
            assert((prev.map_x + step_x) * tile == prev.map_x * tile + step_x * tile) by (nonlinear_arith);
            assert((prev.map_y + step_y) * tile == prev.map_y * tile + step_y * tile) by (nonlinear_arith);
            assert((prev.map_x + step_x + 1) * tile == prev.map_x * tile + step_x * tile + tile) by (nonlinear_arith);
            assert((prev.map_y + step_y + 1) * tile == prev.map_y * tile + step_y * tile + tile) by (nonlinear_arith);
            assert((prev.map_x + 1) * tile == prev.map_x * tile + tile) by (nonlinear_arith);
            assert((prev.map_y + 1) * tile == prev.map_y * tile + tile) by (nonlinear_arith);
            if map_x < 0 || map_y < 0 || map_x >= maze.width as i64 || map_y >= maze.height as i64 {
                break;
            }
            if maze.is_wall(map_x as usize, map_y as usize) {
                break;
            }
            proof {
                assert(map_x * tile <= MAX_CELLS * MAX_TILE) by (nonlinear_arith)
                    requires 0 <= map_x < MAX_CELLS, 0 < tile <= MAX_TILE;
                assert(map_y * tile <= MAX_CELLS * MAX_TILE) by (nonlinear_arith)
                    requires 0 <= map_y < MAX_CELLS, 0 < tile <= MAX_TILE;
                assert(map_x * tile >= 0) by (nonlinear_arith)
                    requires 0 <= map_x, 0 < tile;
                assert(map_y * tile >= 0) by (nonlinear_arith)
                    requires 0 <= map_y, 0 < tile;
                assert((map_x + 1) * tile == map_x * tile + tile) by (nonlinear_arith);
                assert((map_y + 1) * tile == map_y * tile + tile) by (nonlinear_arith);
            }
        }
        let den: i64 = if vertical { adx } else { ady };
        let distance: u64 = if den == 0 { 0 } else { (num as u64 * DIR_ONE as u64) / den as u64 };
        assert(origin_y * adx <= MAX_COORD * DIR_MAX && origin_y * adx >= -MAX_COORD * DIR_MAX) by (nonlinear_arith)
            requires -MAX_COORD <= origin_y <= MAX_COORD, 0 <= adx <= DIR_MAX;
        assert(origin_x * ady <= MAX_COORD * DIR_MAX && origin_x * ady >= -MAX_COORD * DIR_MAX) by (nonlinear_arith)
            requires -MAX_COORD <= origin_x <= MAX_COORD, 0 <= ady <= DIR_MAX;
        assert(num * dy <= SIDE_MAX * DIR_MAX && num * dy >= -SIDE_MAX * DIR_MAX) by (nonlinear_arith)
            requires 0 <= num <= SIDE_MAX, -DIR_MAX <= dy <= DIR_MAX;
        assert(num * dx <= SIDE_MAX * DIR_MAX && num * dx >= -SIDE_MAX * DIR_MAX) by (nonlinear_arith)
            requires 0 <= num <= SIDE_MAX, -DIR_MAX <= dx <= DIR_MAX;
        let coord: i64 = if vertical {
            if dx == 0 { origin_y } else { floor_div(origin_y * adx + num * dy, adx) }
        } else {
            if dy == 0 { origin_x } else { floor_div(origin_x * ady + num * dx, ady) }
        };
        let within: i64 = floor_mod(coord, tile);
        proof {
            let p = within as int * TEX_U_ONE as int;
            lemma_fundamental_div_mod(p, tile as int);
            assert(p / (tile as int) < TEX_U_ONE) by (nonlinear_arith)
                requires
                    p == (tile as int) * (p / (tile as int)) + p % (tile as int),
                    0 <= p % (tile as int),
                    p == within as int * TEX_U_ONE as int,
                    0 <= within < tile;
        }
        let wall_x: u32 = ((within as u64 * TEX_U_ONE as u64) / tile as u64) as u32;
        let wall_type = maze.wall_type_of(map_x, map_y);
        RayHit { distance, wall_x, hit_vertical: vertical, wall_type, map_x, map_y, dir }
    }
}

} // verus!
