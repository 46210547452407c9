use vstd::prelude::*;
use crate::color::Rgba;
use crate::player::{Vector2, PLAYER_MAX_COORD};

verus! {

/// Longest a floating text lives, in milliseconds.
pub const TEXT_LIFETIME_MS: i32 = 1500;

#[derive(Clone, Copy, Debug, PartialEq, Eq, Structural)]
pub enum PillType {
    /// Costs health and brings on anxiety.
    Red,
    /// Restores health.
    Blue,
}

/// A pill lying in the maze.
#[derive(Clone, Copy, Debug)]
pub struct Pill {
    pub pos: Vector2,
    pub pill_type: PillType,
    pub collected: bool,
    /// Milliseconds of glow animation, running at twice real time.
    pub glow_timer: u64,
}

/// The squared distance between two points.
pub open spec fn dist_sq(ax: int, ay: int, bx: int, by: int) -> int {
    (ax - bx) * (ax - bx) + (ay - by) * (ay - by)
}

/// Scales a channel by `pulse / 256`.
pub open spec fn pulse_channel(c: int, pulse: int) -> u8 {
    (c * pulse / 256) as u8
}

impl Pill {
    pub fn new(x: i64, y: i64, pill_type: PillType) -> (p: Pill)
        ensures
            p.pos == (Vector2 { x, y }),
            p.pill_type == pill_type,
            !p.collected,
            p.glow_timer == 0,
    {
        Pill { pos: Vector2::new(x, y), pill_type, collected: false, glow_timer: 0 }
    }

    /// Advances the glow animation of a pill that is still lying there.
    pub fn update(&mut self, delta_ms: u32)
        ensures
            final(self).glow_timer == (if old(self).collected {
                old(self).glow_timer as int
            } else if old(self).glow_timer + 2 * delta_ms > u64::MAX {
                u64::MAX as int
            } else {
                old(self).glow_timer + 2 * delta_ms
            }),
            final(self).pos == old(self).pos,
            final(self).pill_type == old(self).pill_type,
            final(self).collected == old(self).collected,
    {
        if !self.collected {
            self.glow_timer = self.glow_timer.saturating_add(2 * delta_ms as u64);
        }
    }

    /// Whether the pill is still there and (player_x, player_y) lies strictly within
    /// `collect_radius` of it.
    pub fn can_collect(&self, player_x: i64, player_y: i64, collect_radius: u64) -> (r: bool)
        requires
            -PLAYER_MAX_COORD <= player_x <= PLAYER_MAX_COORD,
            -PLAYER_MAX_COORD <= player_y <= PLAYER_MAX_COORD,
            -PLAYER_MAX_COORD <= self.pos.x <= PLAYER_MAX_COORD,
            -PLAYER_MAX_COORD <= self.pos.y <= PLAYER_MAX_COORD,
            collect_radius <= PLAYER_MAX_COORD,
        ensures
            r == (!self.collected && dist_sq(self.pos.x as int, self.pos.y as int, player_x as int, player_y as int)
                < collect_radius * collect_radius),
    {
        if self.collected {
            return false;
        }
        let dx: i128 = self.pos.x as i128 - player_x as i128;
        let dy: i128 = self.pos.y as i128 - player_y as i128;
        assert(dx as int * dx as int <= 0x1_0000_0000_0000_0000_0000 && dx as int * dx as int >= 0) by (nonlinear_arith)
            requires -0x100_0000_0000 <= dx <= 0x100_0000_0000;
        assert(dy as int * dy as int <= 0x1_0000_0000_0000_0000_0000 && dy as int * dy as int >= 0) by (nonlinear_arith)
            requires -0x100_0000_0000 <= dy <= 0x100_0000_0000;
        assert(collect_radius * collect_radius <= PLAYER_MAX_COORD * PLAYER_MAX_COORD) by (nonlinear_arith)
            requires collect_radius <= PLAYER_MAX_COORD;
        dx * dx + dy * dy < collect_radius as i128 * collect_radius as i128
    }

    /// The glow color at a pulse of `pulse / 256`, translucent.
    pub fn get_glow_color(&self, pulse: u32) -> (c: Rgba)
        requires
            pulse <= 256,
        ensures
            c == (match self.pill_type {
                PillType::Red => Rgba { r: pulse_channel(255, pulse as int), g: pulse_channel(50, pulse as int), b: pulse_channel(50, pulse as int), a: 200 },
                PillType::Blue => Rgba { r: pulse_channel(50, pulse as int), g: pulse_channel(150, pulse as int), b: pulse_channel(255, pulse as int), a: 200 },
            }),
    {
        let p: u32 = pulse;
        match self.pill_type {
            PillType::Red => Rgba { r: (255 * p / 256) as u8, g: (50 * p / 256) as u8, b: (50 * p / 256) as u8, a: 200 },
            PillType::Blue => Rgba { r: (50 * p / 256) as u8, g: (150 * p / 256) as u8, b: (255 * p / 256) as u8, a: 200 },
        }
    }

    /// Red `(255, 50, 50)` or blue `(50, 150, 255)`, opaque.
    pub fn get_color(&self) -> (c: Rgba)
        ensures
            c == (match self.pill_type {
                PillType::Red => Rgba { r: 255, g: 50, b: 50, a: 255 },
                PillType::Blue => Rgba { r: 50, g: 150, b: 255, a: 255 },
            }),
    {
        match self.pill_type {
            PillType::Red => Rgba { r: 255, g: 50, b: 50, a: 255 },
            PillType::Blue => Rgba { r: 50, g: 150, b: 255, a: 255 },
        }
    }
}

/// Feedback text that rises from a collected pill and fades.
pub struct FloatingText {
    pub text: String,
    pub pos: Vector2,
    pub color: Rgba,
    /// Milliseconds left; zero or less once expired.
    pub lifetime: i32,
    /// Screen pixels per second.
    pub velocity_y: i32,
    /// Height above the floor, in thousandths of a tile.
    pub z: i64,
}

/// Opacity for `lifetime` milliseconds left: full at the start, fading to zero.
pub open spec fn fade_alpha(lifetime: int) -> u8 {
    if lifetime <= 0 { 0 } else if lifetime >= TEXT_LIFETIME_MS { 255 } else { (lifetime * 255 / TEXT_LIFETIME_MS as int) as u8 }
}

impl FloatingText {
    pub fn new(text: String, x: i64, y: i64, color: Rgba) -> (t: FloatingText)
        ensures
            t.text@ == text@,
            t.pos == (Vector2 { x, y }),
            t.color == color,
            t.lifetime == TEXT_LIFETIME_MS,
            t.velocity_y == -50,
            t.z == 0,
    {
        FloatingText { text, pos: Vector2::new(x, y), color, lifetime: TEXT_LIFETIME_MS, velocity_y: -50, z: 0 }
    }

    /// Ages the text by `delta_ms`: it rises one tile a second and fades with its lifetime.
    pub fn update(&mut self, delta_ms: u32)
        requires
            old(self).lifetime >= -1_000_000_000,
            delta_ms <= 1_000_000_000,
            old(self).z <= i64::MAX - 1_000_000_000,
        ensures
            final(self).lifetime == old(self).lifetime - delta_ms,
            final(self).z == old(self).z + delta_ms,
            final(self).color == (Rgba { a: fade_alpha(final(self).lifetime as int), ..old(self).color }),
            final(self).pos == old(self).pos,
            final(self).text == old(self).text,
    {
        self.lifetime = self.lifetime - delta_ms as i32;
        self.z = self.z + delta_ms as i64;
        let alpha: u8 = if self.lifetime <= 0 {
            0
        } else if self.lifetime >= TEXT_LIFETIME_MS {
            255
        } else {
            (self.lifetime * 255 / TEXT_LIFETIME_MS) as u8
        };
        self.color.a = alpha;
    }

    pub fn is_expired(&self) -> (r: bool)
        ensures
            r == (self.lifetime <= 0),
    {
        self.lifetime <= 0
    }
}

} // verus!
