use vstd::prelude::*;
use crate::caster::{RayDir, DIR_ONE, floor_div};
use crate::maze::{Maze, MAX_TILE};

verus! {

/// One full turn in binary angle units.
pub const ANGLE_TURN: u32 = 65536;

/// Largest magnitude of a player coordinate.
pub const PLAYER_MAX_COORD: i64 = 549755813888;

/// Largest frame time that movement accepts, in milliseconds.
pub const MAX_FRAME_MS: u32 = 60000;

/// Cosine of 45 degrees as a fraction of 65536.
pub const DIAGONAL: i64 = 46341;

/// A point in world units.
#[derive(Clone, Copy, Debug, PartialEq, Eq, Structural)]
pub struct Vector2 {
    pub x: i64,
    pub y: i64,
}

impl Vector2 {
    pub fn new(x: i64, y: i64) -> (v: Vector2)
        ensures
            v == (Vector2 { x, y }),
    {
        Vector2 { x, y }
    }
}

/// The viewer: position in world units, heading in binary angle units, health, and the
/// speeds and collision radius of movement.
pub struct Player {
    pub pos: Vector2,
    pub angle: u32,
    pub health: i32,
    pub max_health: i32,
    /// World units per second.
    pub move_speed: u32,
    /// Angle units per second.
    pub rot_speed: u32,
    /// World units.
    pub collision_radius: u32,
}

/// `pos` moved along `v` (a direction in fractions of `DIR_ONE`) at `speed` units per
/// second for `ms` milliseconds, rounded down.
pub open spec fn step_coord(pos: int, v: int, speed: int, ms: int) -> int {
    pos + v * speed * ms / (DIR_ONE as int * 1000)
}

/// The eight points checked around a position, at the collision radius and at each
/// multiple of 45 degrees.
pub open spec fn probe(i: int, r: int) -> (int, int) {
    let d = r * DIAGONAL as int / 65536;
    if i == 0 { (r, 0) }
    else if i == 1 { (d, d) }
    else if i == 2 { (0, r) }
    else if i == 3 { (-d, d) }
    else if i == 4 { (-r, 0) }
    else if i == 5 { (-d, -d) }
    else if i == 6 { (0, -r) }
    else { (d, -d) }
}

/// Whether every probe point around (x, y) lies in a cell of the grid that is not opaque.
pub open spec fn clear_at(m: &Maze, x: int, y: int, r: int) -> bool {
    forall|i: int| 0 <= i < 8 ==> m.walkable_at(x + (#[trigger] probe(i, r)).0, y + probe(i, r).1)
}

pub open spec fn in_world(x: int, y: int) -> bool {
    -PLAYER_MAX_COORD <= x <= PLAYER_MAX_COORD && -PLAYER_MAX_COORD <= y <= PLAYER_MAX_COORD
}

impl Player {
    pub open spec fn wf(&self) -> bool {
        &&& in_world(self.pos.x as int, self.pos.y as int)
        &&& self.move_speed <= 4 * MAX_TILE
        &&& self.collision_radius <= MAX_TILE
        &&& self.angle < ANGLE_TURN
        &&& self.rot_speed <= ANGLE_TURN
    }

    /// A player at (x, y) facing along +x, with full health (100); moving three tiles a
    /// second, turning about 2.5 radians a second, with a collision radius of 0.3 tiles.
    pub fn new(x: i64, y: i64, tile_size: u32) -> (p: Player)
        requires
            in_world(x as int, y as int),
            tile_size <= MAX_TILE,
        ensures
            p.wf(),
            p.pos == (Vector2 { x, y }),
            p.angle == 0,
            p.health == 100,
            p.max_health == 100,
            p.move_speed == 3 * tile_size,
            p.rot_speed == 26075,
            p.collision_radius == 3 * tile_size / 10,
    {
        Player {
            pos: Vector2::new(x, y),
            angle: 0,
            health: 100,
            max_health: 100,
            move_speed: 3 * tile_size,
            rot_speed: 26075,
            collision_radius: 3 * tile_size / 10,
        }
    }

    fn check_collision(&self, maze: &Maze, new_x: i64, new_y: i64) -> (r: bool)
        requires
            self.wf(),
            maze.wf(),
            in_world(new_x as int, new_y as int),
        ensures
            r == clear_at(maze, new_x as int, new_y as int, self.collision_radius as int),
    {
        let r: i64 = self.collision_radius as i64;
        let d: i64 = r * DIAGONAL / 65536;
        let mut i: usize = 0;
        while i < 8
            invariant
                i <= 8,
                self.wf(),
                maze.wf(),
                in_world(new_x as int, new_y as int),
                r == self.collision_radius,
                d == r * DIAGONAL / 65536,
                forall|j: int| 0 <= j < i ==> maze.walkable_at(new_x + (#[trigger] probe(j, r as int)).0,
                    new_y + probe(j, r as int).1),
            decreases 8 - i,
        {
            let (ox, oy): (i64, i64) = if i == 0 { (r, 0) }
                else if i == 1 { (d, d) }
                else if i == 2 { (0, r) }
                else if i == 3 { (-d, d) }
                else if i == 4 { (-r, 0) }
                else if i == 5 { (-d, -d) }
                else if i == 6 { (0, -r) }
                else { (d, -d) };
            assert((ox, oy) == (probe(i as int, r as int).0 as i64, probe(i as int, r as int).1 as i64));
            if !maze.is_walkable(new_x + ox, new_y + oy) {
                return false;
            }
            i = i + 1;
        }
        true
    }

    /// Moves by `v` scaled by speed and time when the destination is clear of walls and
    /// inside the world; otherwise stays.
    fn try_move(&mut self, maze: &Maze, v: RayDir, delta_ms: u32)
        requires
            old(self).wf(),
            maze.wf(),
            v.in_range(),
            delta_ms <= MAX_FRAME_MS,
        ensures
            final(self).wf(),
            ({
                let nx = step_coord(old(self).pos.x as int, v.x as int, old(self).move_speed as int, delta_ms as int);
                let ny = step_coord(old(self).pos.y as int, v.y as int, old(self).move_speed as int, delta_ms as int);
                if in_world(nx, ny) && clear_at(maze, nx, ny, old(self).collision_radius as int) {
                    *final(self) == (Player { pos: Vector2 { x: nx as i64, y: ny as i64 }, ..*old(self) })
                } else {
                    *final(self) == *old(self)
                }
            }),
    {
        let speed: i64 = self.move_speed as i64;
        let ms: i64 = delta_ms as i64;
        assert(-0x2_0000 * (4 * MAX_TILE) * MAX_FRAME_MS <= v.x * speed * ms <= 0x2_0000 * (4 * MAX_TILE) * MAX_FRAME_MS) by (nonlinear_arith)
            requires -0x2_0000 <= v.x <= 0x2_0000, 0 <= speed <= 4 * MAX_TILE, 0 <= ms <= MAX_FRAME_MS;
        assert(-0x2_0000 * (4 * MAX_TILE) * MAX_FRAME_MS <= v.y * speed * ms <= 0x2_0000 * (4 * MAX_TILE) * MAX_FRAME_MS) by (nonlinear_arith)
            requires -0x2_0000 <= v.y <= 0x2_0000, 0 <= speed <= 4 * MAX_TILE, 0 <= ms <= MAX_FRAME_MS;
        assert(-0x2_0000 * (4 * MAX_TILE) <= v.x * speed <= 0x2_0000 * (4 * MAX_TILE)) by (nonlinear_arith)
            requires -0x2_0000 <= v.x <= 0x2_0000, 0 <= speed <= 4 * MAX_TILE;
        assert(-0x2_0000 * (4 * MAX_TILE) <= v.y * speed <= 0x2_0000 * (4 * MAX_TILE)) by (nonlinear_arith)
            requires -0x2_0000 <= v.y <= 0x2_0000, 0 <= speed <= 4 * MAX_TILE;
        let dx: i64 = floor_div(v.x * speed * ms, DIR_ONE * 1000);
        let dy: i64 = floor_div(v.y * speed * ms, DIR_ONE * 1000);
        let nx: i64 = self.pos.x + dx;
        let ny: i64 = self.pos.y + dy;
        if -PLAYER_MAX_COORD <= nx && nx <= PLAYER_MAX_COORD && -PLAYER_MAX_COORD <= ny && ny <= PLAYER_MAX_COORD
            && self.check_collision(maze, nx, ny) {
            self.pos = Vector2 { x: nx, y: ny };
        }
    }

    /// Moves along the facing direction `facing`.
    pub fn move_forward(&mut self, maze: &Maze, facing: RayDir, delta_ms: u32)
        requires
            old(self).wf(),
            maze.wf(),
            facing.in_range(),
            delta_ms <= MAX_FRAME_MS,
        ensures
            final(self).wf(),
            ({
                let nx = step_coord(old(self).pos.x as int, facing.x as int, old(self).move_speed as int, delta_ms as int);
                let ny = step_coord(old(self).pos.y as int, facing.y as int, old(self).move_speed as int, delta_ms as int);
                if in_world(nx, ny) && clear_at(maze, nx, ny, old(self).collision_radius as int) {
                    *final(self) == (Player { pos: Vector2 { x: nx as i64, y: ny as i64 }, ..*old(self) })
                } else {
                    *final(self) == *old(self)
                }
            }),
    {
        self.try_move(maze, facing, delta_ms);
    }

    /// Moves against the facing direction `facing`.
    pub fn move_backward(&mut self, maze: &Maze, facing: RayDir, delta_ms: u32)
        requires
            old(self).wf(),
            maze.wf(),
            facing.in_range(),
            delta_ms <= MAX_FRAME_MS,
        ensures
            final(self).wf(),
            ({
                let nx = step_coord(old(self).pos.x as int, -facing.x, old(self).move_speed as int, delta_ms as int);
                let ny = step_coord(old(self).pos.y as int, -facing.y, old(self).move_speed as int, delta_ms as int);
                if in_world(nx, ny) && clear_at(maze, nx, ny, old(self).collision_radius as int) {
                    *final(self) == (Player { pos: Vector2 { x: nx as i64, y: ny as i64 }, ..*old(self) })
                } else {
                    *final(self) == *old(self)
                }
            }),
    {
        self.try_move(maze, RayDir { x: -facing.x, y: -facing.y }, delta_ms);
    }

    /// Strafes a quarter turn counterclockwise of `facing`: along (facing.y, -facing.x).
    pub fn move_left(&mut self, maze: &Maze, facing: RayDir, delta_ms: u32)
        requires
            old(self).wf(),
            maze.wf(),
            facing.in_range(),
            delta_ms <= MAX_FRAME_MS,
        ensures
            final(self).wf(),
            ({
                let nx = step_coord(old(self).pos.x as int, facing.y as int, old(self).move_speed as int, delta_ms as int);
                let ny = step_coord(old(self).pos.y as int, -facing.x, old(self).move_speed as int, delta_ms as int);
                if in_world(nx, ny) && clear_at(maze, nx, ny, old(self).collision_radius as int) {
                    *final(self) == (Player { pos: Vector2 { x: nx as i64, y: ny as i64 }, ..*old(self) })
                } else {
                    *final(self) == *old(self)
                }
            }),
    {
        self.try_move(maze, RayDir { x: facing.y, y: -facing.x }, delta_ms);
    }

    /// Strafes a quarter turn clockwise of `facing`: along (-facing.y, facing.x).
    pub fn move_right(&mut self, maze: &Maze, facing: RayDir, delta_ms: u32)
        requires
            old(self).wf(),
            maze.wf(),
            facing.in_range(),
            delta_ms <= MAX_FRAME_MS,
        ensures
            final(self).wf(),
            ({
                let nx = step_coord(old(self).pos.x as int, -facing.y, old(self).move_speed as int, delta_ms as int);
                let ny = step_coord(old(self).pos.y as int, facing.x as int, old(self).move_speed as int, delta_ms as int);
                if in_world(nx, ny) && clear_at(maze, nx, ny, old(self).collision_radius as int) {
                    *final(self) == (Player { pos: Vector2 { x: nx as i64, y: ny as i64 }, ..*old(self) })
                } else {
                    *final(self) == *old(self)
                }
            }),
    {
        self.try_move(maze, RayDir { x: -facing.y, y: facing.x }, delta_ms);
    }

    /// Turns by `delta_angle` angle units, keeping the heading in `[0, ANGLE_TURN)`.
    pub fn rotate(&mut self, delta_angle: i32)
        requires
            old(self).angle < ANGLE_TURN,
        ensures
            final(self).angle == (old(self).angle + delta_angle) % (ANGLE_TURN as int),
            final(self).angle < ANGLE_TURN,
            *final(self) == (Player { angle: final(self).angle, ..*old(self) }),
    {
        let a: i64 = self.angle as i64 + delta_angle as i64;
        let m = crate::caster::floor_div(a, ANGLE_TURN as i64);
        proof {
            vstd::arithmetic::div_mod::lemma_fundamental_div_mod(a as int, ANGLE_TURN as int);
        }
        self.angle = (a - m * ANGLE_TURN as i64) as u32;
    }

    /// Loses `amount` health, not going below zero.
    pub fn take_damage(&mut self, amount: i32)
        requires
            i32::MIN <= old(self).health - amount <= i32::MAX,
        ensures
            final(self).health == (if old(self).health - amount > 0 { old(self).health - amount } else { 0 }),
            *final(self) == (Player { health: final(self).health, ..*old(self) }),
    {
        let h = self.health - amount;
        self.health = if h > 0 { h } else { 0 };
    }

    /// Gains `amount` health, not going above the maximum.
    pub fn heal(&mut self, amount: i32)
        requires
            i32::MIN <= old(self).health + amount <= i32::MAX,
        ensures
            final(self).health == (if old(self).health + amount < old(self).max_health {
                old(self).health + amount
            } else {
                old(self).max_health as int
            }),
            *final(self) == (Player { health: final(self).health, ..*old(self) }),
    {
        let h = self.health + amount;
        self.health = if h < self.max_health { h } else { self.max_health };
    }

    pub fn is_alive(&self) -> (r: bool)
        ensures
            r == (self.health > 0),
    {
        self.health > 0
    }
}

} // verus!
