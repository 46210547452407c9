use vstd::prelude::*;
use crate::player::Vector2;

verus! {

/// A hostile walker.
pub struct Enemy {
    pub pos: Vector2,
    pub health: i32,
    /// World units per second.
    pub speed: u32,
}

impl Enemy {
    /// An enemy at full health (100) moving one tile a second.
    pub fn new(x: i64, y: i64, tile_size: u32) -> (e: Enemy)
        ensures
            e.pos == (Vector2 { x, y }),
            e.health == 100,
            e.speed == tile_size,
    {
        Enemy { pos: Vector2::new(x, y), health: 100, speed: tile_size }
    }
}

} // verus!
