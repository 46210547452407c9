use vstd::prelude::*;
use crate::framebuffer::int_sqrt;
use crate::pill::dist_sq;
use crate::player::{Vector2, PLAYER_MAX_COORD};

verus! {

/// An animated billboard in the maze.
#[derive(Clone, Copy, Debug)]
pub struct Sprite {
    pub pos: Vector2,
    pub texture_index: usize,
    /// Milliseconds per animation frame.
    pub animation_speed: u32,
    /// Milliseconds since the current frame began.
    pub animation_timer: u32,
    pub num_frames: usize,
    pub current_frame: usize,
    /// Drawing scale in 256ths.
    pub scale: u32,
}

impl Sprite {
    pub fn new(x: i64, y: i64, texture_index: usize, num_frames: usize, animation_speed: u32) -> (s: Sprite)
        ensures
            s.pos == (Vector2 { x, y }),
            s.texture_index == texture_index,
            s.animation_speed == animation_speed,
            s.animation_timer == 0,
            s.num_frames == num_frames,
            s.current_frame == 0,
            s.scale == 256,
    {
        Sprite { pos: Vector2::new(x, y), texture_index, animation_speed, animation_timer: 0, num_frames, current_frame: 0, scale: 256 }
    }

    /// Runs the animation clock; once a frame has lasted `animation_speed`, moves to the
    /// next frame, wrapping around, and restarts the clock.
    pub fn update(&mut self, delta_ms: u32)
        requires
            old(self).num_frames > 0,
        ensures
            ({
                let t = old(self).animation_timer as int + delta_ms;
                if t >= old(self).animation_speed {
                    final(self).animation_timer == 0
                        && final(self).current_frame == (old(self).current_frame + 1) % (old(self).num_frames as int)
                } else {
                    final(self).animation_timer == t && final(self).current_frame == old(self).current_frame
                }
            }),
            final(self).pos == old(self).pos,
            final(self).num_frames == old(self).num_frames,
            final(self).animation_speed == old(self).animation_speed,
    {
        let t: u64 = self.animation_timer as u64 + delta_ms as u64;
        if t >= self.animation_speed as u64 {
            self.animation_timer = 0;
            self.current_frame = ((self.current_frame as u128 + 1) % self.num_frames as u128) as usize;
        } else {
            self.animation_timer = t as u32;
        }
    }

    /// A four-frame light that flickers every 100 milliseconds.
    pub fn new_flickering_light(x: i64, y: i64) -> (s: Sprite)
        ensures
            s == Sprite::new_spec(x, y, 0, 4, 100),
    {
        Sprite::new(x, y, 0, 4, 100)
    }

    pub open spec fn new_spec(x: i64, y: i64, texture_index: usize, num_frames: usize, animation_speed: u32) -> Sprite {
        Sprite { pos: Vector2 { x, y }, texture_index, animation_speed, animation_timer: 0, num_frames, current_frame: 0, scale: 256 }
    }
}

/// Distance queries for sprites.
pub struct SpriteRenderer {
    /// World units beyond which sprites are not drawn.
    pub sprite_distance_threshold: u64,
}

impl SpriteRenderer {
    /// Sprites are drawn up to 20 tiles away.
    pub fn new(tile_size: u32) -> (r: SpriteRenderer)
        ensures
            r.sprite_distance_threshold == 20 * tile_size,
    {
        SpriteRenderer { sprite_distance_threshold: 20 * tile_size as u64 }
    }

    /// The distance from (player_x, player_y) to the sprite, rounded down.
    pub fn calculate_distance(&self, sprite: &Sprite, player_x: i64, player_y: i64) -> (d: u64)
        requires
            -PLAYER_MAX_COORD <= player_x <= PLAYER_MAX_COORD,
            -PLAYER_MAX_COORD <= player_y <= PLAYER_MAX_COORD,
            -PLAYER_MAX_COORD <= sprite.pos.x <= PLAYER_MAX_COORD,
            -PLAYER_MAX_COORD <= sprite.pos.y <= PLAYER_MAX_COORD,
        ensures
            d == int_sqrt(dist_sq(sprite.pos.x as int, sprite.pos.y as int, player_x as int, player_y as int)),
    {
        let dx: i128 = sprite.pos.x as i128 - player_x as i128;
        let dy: i128 = sprite.pos.y as i128 - player_y as i128;
        assert(dx as int * dx as int <= 0x1_0000_0000_0000_0000_0000 && dx as int * dx as int >= 0) by (nonlinear_arith)
            requires -0x100_0000_0000 <= dx <= 0x100_0000_0000;
        assert(dy as int * dy as int <= 0x1_0000_0000_0000_0000_0000 && dy as int * dy as int >= 0) by (nonlinear_arith)
            requires -0x100_0000_0000 <= dy <= 0x100_0000_0000;
        let n: u128 = (dx * dx + dy * dy) as u128;
        crate::framebuffer::isqrt(n) as u64
    }
}

} // verus!
