use vstd::prelude::*;
use crate::color::{Rgba, SHADE_ONE, shaded, shade_color};
use crate::framebuffer::{MAX_SCREEN, vignette_strength};
use crate::shading::{fog_blend, orientation_shade, distance_shade, apply_fog as blend_fog,
    orientation_shade_factor, distance_shade_factor};

verus! {

/// How long a damage flash lasts, in milliseconds.
pub const DAMAGE_FLASH_MS: u32 = 300;

/// How long the anxiety effect lasts, in milliseconds.
pub const ANXIETY_MS: u32 = 2000;

/// Full intensity of the flashlight and of the anxiety effect.
pub const INTENSITY_ONE: u32 = 256;

/// Screen effects and their timers. Times are in milliseconds; intensities are fractions
/// of `INTENSITY_ONE`.
pub struct Effects {
    pub fog_enabled: bool,
    /// Distance, in world units, at which fog is complete.
    pub fog_distance: u64,
    pub fog_color: Rgba,
    pub flashlight_enabled: bool,
    pub flashlight_intensity: u32,
    pub damage_flash_timer: u32,
    pub anxiety_intensity: u32,
    pub anxiety_timer: u32,
}

/// Brightness of the flashlight at column x of a screen `w` wide: full at the center,
/// half at the edges, times the intensity.
pub open spec fn flashlight_brightness(x: int, w: int, intensity: int) -> int {
    let off = if 2 * x - w < 0 { w - 2 * x } else { 2 * x - w };
    let d = if w <= 0 { 256 } else if off * 256 / w < 256 { off * 256 / w } else { 256 };
    (256 - d / 2) * intensity / 256
}

/// The red tint of a damage flash with `timer` milliseconds left.
pub open spec fn flash_amount(timer: int) -> int {
    let f = timer * 255 / 1000;
    if f < 255 { f } else { 255 }
}

pub open spec fn sat_add(a: u8, b: int) -> u8 {
    if a + b > 255 { 255 } else { (a + b) as u8 }
}

pub open spec fn sat_sub(a: u8, b: int) -> u8 {
    if a - b < 0 { 0 } else { (a - b) as u8 }
}

/// Anxiety intensity with `timer` milliseconds left: fading over the last two seconds.
pub open spec fn anxiety_level(timer: int) -> int {
    let v = timer * 256 / 2000;
    if v < 256 { v } else { 256 }
}

impl Effects {
    /// Fog and flashlight off, no flash or anxiety running; fog complete at 15 tiles.
    pub fn new(tile_size: u32) -> (e: Effects)
        ensures
            !e.fog_enabled,
            e.fog_distance == 15 * tile_size,
            e.fog_color == (Rgba { r: 80, g: 75, b: 50, a: 255 }),
            !e.flashlight_enabled,
            e.flashlight_intensity == INTENSITY_ONE,
            e.damage_flash_timer == 0,
            e.anxiety_intensity == 0,
            e.anxiety_timer == 0,
    {
        Effects {
            fog_enabled: false,
            fog_distance: 15 * tile_size as u64,
            fog_color: Rgba { r: 80, g: 75, b: 50, a: 255 },
            flashlight_enabled: false,
            flashlight_intensity: INTENSITY_ONE,
            damage_flash_timer: 0,
            anxiety_intensity: 0,
            anxiety_timer: 0,
        }
    }

    /// With fog enabled, `fog_blend` toward the fog color; otherwise the color as it is.
    pub fn apply_fog(&self, color: Rgba, distance: u64) -> (r: Rgba)
        ensures
            r == if self.fog_enabled { fog_blend(color, distance as int, self.fog_distance as int, self.fog_color) } else { color },
    {
        if !self.fog_enabled {
            return color;
        }
        blend_fog(color, distance, self.fog_distance, self.fog_color)
    }

    /// With the flashlight enabled, darkens toward the screen's sides by
    /// `flashlight_brightness`; otherwise the color as it is.
    pub fn apply_flashlight(&self, color: Rgba, screen_x: usize, screen_width: usize) -> (r: Rgba)
        requires
            self.flashlight_intensity <= INTENSITY_ONE,
            screen_x <= MAX_SCREEN,
            screen_width <= MAX_SCREEN,
        ensures
            r == if self.flashlight_enabled {
                shaded(color, flashlight_brightness(screen_x as int, screen_width as int, self.flashlight_intensity as int) as u32)
            } else {
                color
            },
    {
        if !self.flashlight_enabled {
            return color;
        }
        let x: u64 = screen_x as u64;
        let w: u64 = screen_width as u64;
        let off: u64 = if 2 * x < w { w - 2 * x } else { 2 * x - w };
        let d: u64 = if w == 0 {
            256
        } else if off * 256 / w < 256 {
            off * 256 / w
        } else {
            256
        };
        assert((256 - d / 2) * self.flashlight_intensity as int <= 256 * 256) by (nonlinear_arith)
            requires d / 2 <= 256, self.flashlight_intensity <= 256, d <= 256;
        assert(((256 - d / 2) * self.flashlight_intensity as int) / 256 <= 256) by (nonlinear_arith)
            requires (256 - d / 2) * self.flashlight_intensity as int <= 256 * 256,
                (256 - d / 2) * self.flashlight_intensity as int >= 0;
        let brightness: u64 = (256 - d / 2) * self.flashlight_intensity as u64 / 256;
        shade_color(color, brightness as u32)
    }

    /// While a damage flash runs, tints red: adds `flash_amount` to red and takes half of
    /// it from green and blue, saturating; otherwise the color as it is.
    pub fn apply_damage_flash(&self, color: Rgba) -> (r: Rgba)
        ensures
            self.damage_flash_timer == 0 ==> r == color,
            self.damage_flash_timer > 0 ==> r == (Rgba {
                r: sat_add(color.r, flash_amount(self.damage_flash_timer as int)),
                g: sat_sub(color.g, flash_amount(self.damage_flash_timer as int) / 2),
                b: sat_sub(color.b, flash_amount(self.damage_flash_timer as int) / 2),
                a: 255,
            }),
    {
        if self.damage_flash_timer == 0 {
            return color;
        }
        let f: u64 = self.damage_flash_timer as u64 * 255 / 1000;
        let flash: u8 = if f < 255 { f as u8 } else { 255 };
        Rgba {
            r: color.r.saturating_add(flash),
            g: color.g.saturating_sub(flash / 2),
            b: color.b.saturating_sub(flash / 2),
            a: 255,
        }
    }

    /// Advances the timers by `delta_ms`: the damage flash fades at twice real time, the
    /// anxiety timer at real time, and anxiety intensity follows `anxiety_level`.
    pub fn update(&mut self, delta_ms: u32)
        ensures
            final(self).fog_enabled == old(self).fog_enabled,
            final(self).fog_distance == old(self).fog_distance,
            final(self).fog_color == old(self).fog_color,
            final(self).flashlight_enabled == old(self).flashlight_enabled,
            final(self).flashlight_intensity == old(self).flashlight_intensity,
            final(self).damage_flash_timer == (if old(self).damage_flash_timer > 2 * delta_ms {
                old(self).damage_flash_timer - 2 * delta_ms
            } else {
                0
            }),
            final(self).anxiety_timer == (if old(self).anxiety_timer > delta_ms {
                old(self).anxiety_timer - delta_ms
            } else {
                0
            }),
            final(self).anxiety_intensity == (if old(self).anxiety_timer > 0 {
                anxiety_level(final(self).anxiety_timer as int)
            } else {
                0
            }),
    {
        let flash_drop: u64 = 2 * delta_ms as u64;
        if self.damage_flash_timer as u64 > flash_drop {
            self.damage_flash_timer = (self.damage_flash_timer as u64 - flash_drop) as u32;
        } else {
            self.damage_flash_timer = 0;
        }
        if self.anxiety_timer > 0 {
            self.anxiety_timer = if self.anxiety_timer > delta_ms { self.anxiety_timer - delta_ms } else { 0 };
            let v: u64 = self.anxiety_timer as u64 * 256 / 2000;
            self.anxiety_intensity = if v < 256 { v as u32 } else { 256 };
        } else {
            self.anxiety_intensity = 0;
        }
    }

    /// Starts a damage flash.
    pub fn trigger_damage_flash(&mut self)
        ensures
            *final(self) == (Effects { damage_flash_timer: DAMAGE_FLASH_MS, ..*old(self) }),
    {
        self.damage_flash_timer = DAMAGE_FLASH_MS;
    }

    /// Starts the anxiety effect at full intensity.
    pub fn trigger_anxiety_effect(&mut self)
        ensures
            *final(self) == (Effects { anxiety_timer: ANXIETY_MS, anxiety_intensity: INTENSITY_ONE, ..*old(self) }),
    {
        self.anxiety_timer = ANXIETY_MS;
        self.anxiety_intensity = INTENSITY_ONE;
    }

    /// While anxiety lasts, darkens by the vignette at the anxiety intensity.
    pub fn apply_anxiety_vignette(&self, color: Rgba, screen_x: usize, screen_y: usize, screen_width: usize, screen_height: usize) -> (r: Rgba)
        requires
            self.anxiety_intensity <= INTENSITY_ONE,
            screen_x < MAX_SCREEN,
            screen_y < MAX_SCREEN,
            screen_width <= MAX_SCREEN,
            screen_height <= MAX_SCREEN,
        ensures
            self.anxiety_intensity == 0 ==> r == color,
            self.anxiety_intensity > 0 ==> r == shaded(color, (SHADE_ONE - vignette_strength(screen_x as int,
                screen_y as int, screen_width as int, screen_height as int, self.anxiety_intensity as int)) as u32),
    {
        if self.anxiety_intensity == 0 {
            return color;
        }
        let strength = crate::framebuffer::vignette_strength_at(screen_x, screen_y, screen_width, screen_height, self.anxiety_intensity);
        shade_color(color, SHADE_ONE - strength)
    }

    /// `orientation_shade`.
    pub fn calculate_shading(&self, hit_vertical: bool) -> (s: u32)
        ensures
            s == orientation_shade(hit_vertical),
    {
        orientation_shade_factor(hit_vertical)
    }

    /// `distance_shade`.
    pub fn calculate_distance_shading(&self, distance: u64, max_distance: u64) -> (s: u32)
        ensures
            s == distance_shade(distance as int, max_distance as int),
    {
        distance_shade_factor(distance, max_distance)
    }
}

} // verus!
