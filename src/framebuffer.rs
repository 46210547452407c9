use vstd::prelude::*;
use vstd::arithmetic::div_mod::{lemma_fundamental_div_mod, lemma_fundamental_div_mod_converse};
use crate::color::{Rgba, SHADE_ONE, shaded, shade_color};
use crate::texture::{Texture, clamp_index};

verus! {

/// Largest width or height of a framebuffer.
pub const MAX_SCREEN: usize = 8192;

/// A screen-sized grid of pixels, stored row by row.
pub struct Framebuffer {
    pub width: usize,
    pub height: usize,
    pub buffer: Vec<Rgba>,
}

/// Row `k / w`, column `k % w` of a row-major index: the pixel at (x, y) has index
/// `y * w + x`, and no other pixel has.
pub proof fn lemma_pixel_index(w: int, h: int, x: int, y: int)
    requires
        0 <= x < w,
        0 <= y < h,
    ensures
        0 <= y * w + x < w * h,
        (y * w + x) % w == x,
        (y * w + x) / w == y,
{
    assert(y * w + x < w * h) by (nonlinear_arith)
        requires 0 <= x < w, 0 <= y < h;
    assert(y * w >= 0) by (nonlinear_arith)
        requires 0 <= x < w, 0 <= y;
    lemma_fundamental_div_mod_converse(y * w + x, w, y, x);
}

/// An index below `w * h` names a pixel inside the grid.
pub proof fn lemma_index_in_grid(w: int, h: int, k: int)
    requires
        0 < w,
        0 <= k < w * h,
    ensures
        0 <= k % w < w,
        0 <= k / w < h,
        k == (k / w) * w + k % w,
{
    lemma_fundamental_div_mod(k, w);
    vstd::arithmetic::div_mod::lemma_div_pos_is_pos(k, w);
    let q = k / w;
    let r = k % w;
    assert(q < h) by (nonlinear_arith)
        requires k == w * q + r, 0 <= r < w, k < w * h, w > 0;
    assert(w * q == q * w) by (nonlinear_arith);
}

impl View for Framebuffer {
    type V = Seq<Rgba>;

    open spec fn view(&self) -> Seq<Rgba> {
        self.buffer@
    }
}

impl Framebuffer {
    pub open spec fn wf(&self) -> bool {
        &&& self.width <= MAX_SCREEN
        &&& self.height <= MAX_SCREEN
        &&& self@.len() == self.width * self.height
    }

    /// The pixel at (x, y).
    pub open spec fn at(&self, x: int, y: int) -> Rgba {
        self@[y * self.width + x]
    }

    /// A `width` by `height` buffer, all opaque black.
    pub fn new(width: usize, height: usize) -> (fb: Framebuffer)
        requires
            width <= MAX_SCREEN,
            height <= MAX_SCREEN,
        ensures
            fb.wf(),
            fb.width == width,
            fb.height == height,
            forall|k: int| 0 <= k < width * height ==> #[trigger] fb@[k] == Rgba::black_spec(),
    {
        assert(width * height <= MAX_SCREEN * MAX_SCREEN) by (nonlinear_arith)
            requires width <= MAX_SCREEN, height <= MAX_SCREEN;
        let n: usize = width * height;
        let buffer: Vec<Rgba> = vec![Rgba::black(); n];
        Framebuffer { width, height, buffer }
    }

    /// The pixel at (x, y).
    pub fn get_pixel(&self, x: usize, y: usize) -> (c: Rgba)
        requires
            self.wf(),
            x < self.width,
            y < self.height,
        ensures
            c == self.at(x as int, y as int),
    {
        proof {
            lemma_pixel_index(self.width as int, self.height as int, x as int, y as int);
        }
        let len: usize = self.buffer.len();
        assert(y * self.width + x < len);
        self.buffer[y * self.width + x]
    }

    /// All pixels, row by row.
    pub fn pixels(&self) -> (p: &Vec<Rgba>)
        ensures
            p@ == self@,
    {
        &self.buffer
    }

    /// Sets every pixel to `color`.
    pub fn clear(&mut self, color: Rgba)
        requires
            old(self).wf(),
        ensures
            final(self).wf(),
            final(self).width == old(self).width,
            final(self).height == old(self).height,
            forall|k: int| 0 <= k < final(self)@.len() ==> #[trigger] final(self)@[k] == color,
    {
        let n: usize = self.buffer.len();
        let mut k: usize = 0;
        while k < n
            invariant
                n == self.buffer@.len(),
                self.wf(),
                self.width == old(self).width,
                self.height == old(self).height,
                k <= n,
                forall|j: int| 0 <= j < k ==> #[trigger] self.buffer@[j] == color,
            decreases n - k,
        {
            self.buffer.set(k, color);
            k = k + 1;
        }
    }

    /// Sets the pixel at (x, y) when it lies inside the buffer; does nothing otherwise.
    pub fn set_pixel(&mut self, x: usize, y: usize, color: Rgba)
        requires
            old(self).wf(),
        ensures
            final(self).wf(),
            final(self).width == old(self).width,
            final(self).height == old(self).height,
            if x < old(self).width && y < old(self).height {
                final(self)@ == old(self)@.update(y * old(self).width + x, color)
            } else {
                final(self)@ == old(self)@
            },
    {
        if x < self.width && y < self.height {
            self.set_pixel_unchecked(x, y, color);
        }
    }

    /// Sets the pixel at (x, y), which the caller guarantees lies inside the buffer.
    pub fn set_pixel_unchecked(&mut self, x: usize, y: usize, color: Rgba)
        requires
            old(self).wf(),
            x < old(self).width,
            y < old(self).height,
        ensures
            final(self).wf(),
            final(self).width == old(self).width,
            final(self).height == old(self).height,
            final(self)@ == old(self)@.update(y * old(self).width + x, color),
    {
        proof {
            lemma_pixel_index(self.width as int, self.height as int, x as int, y as int);
        }
        let len: usize = self.buffer.len();
        assert(y * self.width + x < len);
        let k: usize = y * self.width + x;
        self.buffer.set(k, color);
    }

    /// Fills rows `[y_start, y_end)` of column x, cut to the buffer, with `color`.
    pub fn draw_vertical_line(&mut self, x: usize, y_start: usize, y_end: usize, color: Rgba)
        requires
            old(self).wf(),
        ensures
            final(self).wf(),
            final(self).width == old(self).width,
            final(self).height == old(self).height,
            forall|k: int| 0 <= k < old(self)@.len() ==> #[trigger] final(self)@[k] == (
                if x < old(self).width && k % (old(self).width as int) == x
                    && y_start <= k / (old(self).width as int) < y_end {
                    color
                } else {
                    old(self)@[k]
                }),
    {
        let ghost w = self.width as int;
        if x >= self.width {
            return;
        }
        let ghost y_end_param = y_end;
        let y_end: usize = if y_end < self.height { y_end } else { self.height };
        let mut y: usize = y_start;
        while y < y_end
            invariant
                self.wf(),
                self.width == old(self).width,
                self.height == old(self).height,
                x < self.width,
                y_end <= self.height,
                w == self.width,
                self@.len() == old(self)@.len(),
                y_start <= y,
                y <= y_end || y == y_start,
                forall|k: int| 0 <= k < old(self)@.len() ==> #[trigger] self@[k] == (
                    if k % w == x && y_start <= k / w < y { color } else { old(self)@[k] }),
            decreases y_end - y,
        {
            let ghost before = self@;
            proof {
                lemma_pixel_index(w, self.height as int, x as int, y as int);
            }
            self.set_pixel_unchecked(x, y, color);
            assert forall|k: int| 0 <= k < old(self)@.len() implies #[trigger] self@[k] == (
                if k % w == x && y_start <= k / w < y + 1 { color } else { old(self)@[k] }) by {
                lemma_index_in_grid(w, self.height as int, k);
            }
            y = y + 1;
        }
        assert forall|k: int| 0 <= k < old(self)@.len() implies #[trigger] self@[k] == (
            if x < old(self).width && k % (old(self).width as int) == x
                && y_start <= k / (old(self).width as int) < y_end_param {
                color
            } else {
                old(self)@[k]
            }) by {
            lemma_index_in_grid(w, self.height as int, k);
        }
    }
}

impl Framebuffer {
    /// Writes `col`, top to bottom, into column x.
    pub fn fill_column(&mut self, x: usize, col: &Vec<Rgba>)
        requires
            old(self).wf(),
            x < old(self).width,
            col@.len() == old(self).height,
        ensures
            final(self).wf(),
            final(self).width == old(self).width,
            final(self).height == old(self).height,
            forall|k: int| 0 <= k < old(self)@.len() ==> #[trigger] final(self)@[k] == (
                if k % (old(self).width as int) == x { col@[k / (old(self).width as int)] } else { old(self)@[k] }),
    {
        let ghost w = self.width as int;
        let h: usize = self.height;
        let mut y: usize = 0;
        while y < h
            invariant
                self.wf(),
                self.width == old(self).width,
                self.height == old(self).height,
                h == self.height,
                x < self.width,
                w == self.width,
                col@.len() == h,
                self@.len() == old(self)@.len(),
                y <= h,
                forall|k: int| 0 <= k < old(self)@.len() ==> #[trigger] self@[k] == (
                    if k % w == x && k / w < y { col@[k / w] } else { old(self)@[k] }),
            decreases h - y,
        {
            proof {
                lemma_pixel_index(w, h as int, x as int, y as int);
            }
            self.set_pixel_unchecked(x, y, col[y]);
            assert forall|k: int| 0 <= k < old(self)@.len() implies #[trigger] self@[k] == (
                if k % w == x && k / w < y + 1 { col@[k / w] } else { old(self)@[k] }) by {
                lemma_index_in_grid(w, h as int, k);
            }
            y = y + 1;
        }
        assert forall|k: int| 0 <= k < old(self)@.len() implies #[trigger] self@[k] == (
            if k % w == x { col@[k / w] } else { old(self)@[k] }) by {
            lemma_index_in_grid(w, h as int, k);
        }
    }
}

/// Largest intensity of the vignette: intensities are fractions of this value.
pub const VIGNETTE_ONE: u32 = 256;

/// The darkest the vignette makes a pixel: 204/256 of the way to black.
pub const VIGNETTE_CAP: u32 = 204;

/// The floor of the square root of `n`.
pub open spec fn int_sqrt(n: int) -> int
    decreases n,
{
    if n <= 0 {
        0
    } else {
        let r = int_sqrt(n - 1);
        if (r + 1) * (r + 1) <= n { r + 1 } else { r }
    }
}

pub proof fn lemma_int_sqrt(n: int)
    requires
        n >= 0,
    ensures
        int_sqrt(n) >= 0,
        int_sqrt(n) * int_sqrt(n) <= n < (int_sqrt(n) + 1) * (int_sqrt(n) + 1),
    decreases n,
{
    if n > 0 {
        lemma_int_sqrt(n - 1);
        let r = int_sqrt(n - 1);
        assert((r + 1) * (r + 1) < (r + 2) * (r + 2)) by (nonlinear_arith)
            requires r >= 0;
    }
}

/// Only one number has a square at most `n` and a successor whose square exceeds `n`.
pub proof fn lemma_int_sqrt_unique(n: int, r: int)
    requires
        n >= 0,
        r >= 0,
        r * r <= n < (r + 1) * (r + 1),
    ensures
        int_sqrt(n) == r,
{
    lemma_int_sqrt(n);
    let s = int_sqrt(n);
    if s < r {
        assert((s + 1) * (s + 1) <= r * r) by (nonlinear_arith)
            requires 0 <= s < r;
    } else if s > r {
        assert((r + 1) * (r + 1) <= s * s) by (nonlinear_arith)
            requires 0 <= r < s;
    }
}

/// The floor of the square root of a number below 2^82.
pub fn isqrt(n: u128) -> (r: u128)
    requires
        n < 0x4_0000_0000_0000_0000_0000,
    ensures
        r == int_sqrt(n as int),
        r < 0x2_0000_0000_0000,
{
    let mut lo: u128 = 0;
    let mut hi: u128 = 0x2_0000_0000_0000;
    while hi - lo > 1
        invariant
            lo < hi <= 0x2_0000_0000_0000,
            lo * lo <= n,
            n < hi * hi,
        decreases hi - lo,
    {
        let mid: u128 = lo + (hi - lo) / 2;
        assert(mid * mid <= 0x2_0000_0000_0000 * 0x2_0000_0000_0000) by (nonlinear_arith)
            requires mid <= 0x2_0000_0000_0000;
        if mid * mid <= n {
            lo = mid;
        } else {
            hi = mid;
        }
    }
    proof {
        lemma_int_sqrt_unique(n as int, lo as int);
    }
    lo
}

/// The squared offset of `c` from the center of a span of `len`, relative to the half-span
/// and scaled by `VIGNETTE_ONE` squared: `((2c - len) / len)^2 * 65536`.
pub open spec fn center_offset_sq(c: int, len: int) -> int {
    if len <= 0 { 0 } else { (2 * c - len) * (2 * c - len) * 65536 / (len * len) }
}

/// How far (x, y) lies from the screen's center, relative to the half-sizes, in 256ths.
pub open spec fn vignette_distance(x: int, y: int, w: int, h: int) -> int {
    int_sqrt(center_offset_sq(x, w) + center_offset_sq(y, h))
}

/// Darkening at (x, y): 0.7 of the distance times the intensity, capped.
pub open spec fn vignette_strength(x: int, y: int, w: int, h: int, intensity: int) -> int {
    let s = vignette_distance(x, y, w, h) * intensity * 7 / 2560;
    if s < VIGNETTE_CAP as int { s } else { VIGNETTE_CAP as int }
}

fn center_offset_sq_of(c: usize, len: usize) -> (r: u64)
    requires
        c < MAX_SCREEN,
        len <= MAX_SCREEN,
    ensures
        r == center_offset_sq(c as int, len as int),
        r <= 0x1000_0000_0000,
{
    if len == 0 {
        return 0;
    }
    let d: i64 = 2 * (c as i64) - (len as i64);
    let a: u64 = if d < 0 { (-d) as u64 } else { d as u64 };
    assert(a * a * 65536 <= 0x4000 * 0x4000 * 65536) by (nonlinear_arith)
        requires a <= 0x4000;
    assert(a * a == d * d) by (nonlinear_arith)
        requires a == d || a == -d;
    assert(len as int * len as int >= 1) by (nonlinear_arith)
        requires len >= 1;
    assert(len * len <= MAX_SCREEN * MAX_SCREEN) by (nonlinear_arith)
        requires len <= MAX_SCREEN;
    let r: u64 = (a * a * 65536) / (len as u64 * len as u64);
    assert(r <= a * a * 65536) by (nonlinear_arith)
        requires r == (a * a * 65536) as int / (len as int * len as int), len as int * len as int >= 1;
    r
}

/// `vignette_strength` at one pixel.
pub fn vignette_strength_at(x: usize, y: usize, screen_width: usize, screen_height: usize, intensity: u32) -> (s: u32)
    requires
        x < MAX_SCREEN,
        y < MAX_SCREEN,
        screen_width <= MAX_SCREEN,
        screen_height <= MAX_SCREEN,
        intensity <= VIGNETTE_ONE,
    ensures
        s == vignette_strength(x as int, y as int, screen_width as int, screen_height as int, intensity as int),
        s <= VIGNETTE_CAP,
{
    let n: u64 = center_offset_sq_of(x, screen_width) + center_offset_sq_of(y, screen_height);
    let dist: u128 = isqrt(n as u128);
    proof {
        lemma_int_sqrt(n as int);
        if dist >= 0x80_0000 {
            assert(dist * dist >= 0x80_0000 * 0x80_0000) by (nonlinear_arith)
                requires dist >= 0x80_0000;
        }
    }
    assert(dist * intensity * 7 <= 0x80_0000 * 256 * 7) by (nonlinear_arith)
        requires dist < 0x80_0000, intensity <= 256;
    let s: u128 = dist * intensity as u128 * 7 / 2560;
    if s < VIGNETTE_CAP as u128 { s as u32 } else { VIGNETTE_CAP }
}

impl Framebuffer {
    /// Darkens each pixel by its distance from the center of a `screen_width` by
    /// `screen_height` screen: by `vignette_strength`, at an intensity of
    /// `intensity / VIGNETTE_ONE`. Leaves the buffer as it is at intensity 0.
    pub fn apply_vignette_effect(&mut self, intensity: u32, screen_width: usize, screen_height: usize)
        requires
            old(self).wf(),
            intensity <= VIGNETTE_ONE,
            screen_width <= MAX_SCREEN,
            screen_height <= MAX_SCREEN,
        ensures
            final(self).wf(),
            final(self).width == old(self).width,
            final(self).height == old(self).height,
            intensity == 0 ==> final(self)@ == old(self)@,
            intensity > 0 ==> forall|k: int| 0 <= k < old(self)@.len() ==> #[trigger] final(self)@[k] == shaded(old(self)@[k],
                (SHADE_ONE - vignette_strength(k % (old(self).width as int), k / (old(self).width as int),
                    screen_width as int, screen_height as int, intensity as int)) as u32),
    {
        if intensity == 0 {
            return;
        }
        let w: usize = self.width;
        let h: usize = self.height;
        let n: usize = self.buffer.len();
        let mut k: usize = 0;
        while k < n
            invariant
                self.wf(),
                self.width == w,
                self.height == h,
                n == self.buffer@.len(),
                n == old(self)@.len(),
                w == old(self).width,
                0 < intensity <= VIGNETTE_ONE,
                screen_width <= MAX_SCREEN,
                screen_height <= MAX_SCREEN,
                k <= n,
                forall|j: int| k <= j < n ==> #[trigger] self@[j] == old(self)@[j],
                forall|j: int| 0 <= j < k ==> #[trigger] self@[j] == shaded(old(self)@[j],
                    (SHADE_ONE - vignette_strength(j % (w as int), j / (w as int),
                        screen_width as int, screen_height as int, intensity as int)) as u32),
            decreases n - k,
        {
            proof {
                lemma_index_in_grid(w as int, h as int, k as int);
            }
            let x: usize = k % w;
            let y: usize = k / w;
            let strength = vignette_strength_at(x, y, screen_width, screen_height, intensity);
            let c = shade_color(self.buffer[k], SHADE_ONE - strength);
            self.buffer.set(k, c);
            k = k + 1;
        }
    }
}

/// The texel a textured vertical line shows at row y: texture column `tex_x`, and the
/// texture's rows stretched over `[y_start, y_end)`; both clamped to the texture.
pub open spec fn line_texel(tex: Texture, tex_x: int, y_start: int, y_end: int, y: int) -> Rgba {
    tex.texel(
        clamp_index(tex_x, tex.width as int),
        clamp_index((y - y_start) * tex.height / (y_end - y_start), tex.height as int),
    )
}

impl Framebuffer {
    /// Fills columns `[x_start, x_end)` of row y, cut to the buffer, with `color`.
    pub fn draw_horizontal_line(&mut self, y: usize, x_start: usize, x_end: usize, color: Rgba)
        requires
            old(self).wf(),
        ensures
            final(self).wf(),
            final(self).width == old(self).width,
            final(self).height == old(self).height,
            forall|k: int| 0 <= k < old(self)@.len() ==> #[trigger] final(self)@[k] == (
                if y < old(self).height && k / (old(self).width as int) == y
                    && x_start <= k % (old(self).width as int) < x_end {
                    color
                } else {
                    old(self)@[k]
                }),
    {
        let ghost w = self.width as int;
        if y >= self.height {
            return;
        }
        let ghost x_end_param = x_end;
        let x_end: usize = if x_end < self.width { x_end } else { self.width };
        let mut x: usize = x_start;
        while x < x_end
            invariant
                self.wf(),
                self.width == old(self).width,
                self.height == old(self).height,
                y < self.height,
                x_end <= self.width,
                w == self.width,
                self@.len() == old(self)@.len(),
                x_start <= x,
                x <= x_end || x == x_start,
                forall|k: int| 0 <= k < old(self)@.len() ==> #[trigger] self@[k] == (
                    if k / w == y && x_start <= k % w < x { color } else { old(self)@[k] }),
            decreases x_end - x,
        {
            proof {
                lemma_pixel_index(w, self.height as int, x as int, y as int);
            }
            self.set_pixel_unchecked(x, y, color);
            assert forall|k: int| 0 <= k < old(self)@.len() implies #[trigger] self@[k] == (
                if k / w == y && x_start <= k % w < x + 1 { color } else { old(self)@[k] }) by {
                lemma_index_in_grid(w, self.height as int, k);
            }
            x = x + 1;
        }
        assert forall|k: int| 0 <= k < old(self)@.len() implies #[trigger] self@[k] == (
            if y < old(self).height && k / (old(self).width as int) == y
                && x_start <= k % (old(self).width as int) < x_end_param {
                color
            } else {
                old(self)@[k]
            }) by {
            lemma_index_in_grid(w, self.height as int, k);
        }
    }

    /// Draws rows `[y_start, y_end)` of column x, cut to the buffer, from texture column
    /// `tex_x`, the texture's rows stretched over the whole span, each texel darkened by
    /// `shade / SHADE_ONE`. Does nothing for an empty span or a column off the buffer.
    pub fn draw_textured_line(&mut self, x: usize, y_start: usize, y_end: usize, texture: &Texture, tex_x: usize, shade: u32)
        requires
            old(self).wf(),
            texture.wf(),
            shade <= SHADE_ONE,
        ensures
            final(self).wf(),
            final(self).width == old(self).width,
            final(self).height == old(self).height,
            forall|k: int| 0 <= k < old(self)@.len() ==> #[trigger] final(self)@[k] == (
                if x < old(self).width && k % (old(self).width as int) == x
                    && y_start <= k / (old(self).width as int) < y_end {
                    shaded(line_texel(*texture, tex_x as int, y_start as int, y_end as int, k / (old(self).width as int)), shade)
                } else {
                    old(self)@[k]
                }),
    {
        let ghost w = self.width as int;
        if x >= self.width || y_start >= y_end {
            return;
        }
        let line_height: usize = y_end - y_start;
        let ghost y_end_param = y_end;
        let y_end_c: usize = if y_end < self.height { y_end } else { self.height };
        let mut y: usize = y_start;
        while y < y_end_c
            invariant
                self.wf(),
                self.width == old(self).width,
                self.height == old(self).height,
                texture.wf(),
                shade <= SHADE_ONE,
                x < self.width,
                y_start < y_end,
                line_height == y_end - y_start,
                y_end_c <= self.height,
                y_end_c <= y_end,
                w == self.width,
                self@.len() == old(self)@.len(),
                y_start <= y,
                y <= y_end_c || y == y_start,
                forall|k: int| 0 <= k < old(self)@.len() ==> #[trigger] self@[k] == (
                    if k % w == x && y_start <= k / w < y {
                        shaded(line_texel(*texture, tex_x as int, y_start as int, y_end as int, k / w), shade)
                    } else {
                        old(self)@[k]
                    }),
            decreases y_end_c - y,
        {
            assert((y - y_start) * texture.height <= MAX_SCREEN * 65536) by (nonlinear_arith)
                requires y - y_start <= MAX_SCREEN, texture.height <= 65536;
            let tex_y: usize = (y - y_start) * texture.height / line_height;
            let c = shade_color(texture.sample_point(tex_x, tex_y), shade);
            proof {
                lemma_pixel_index(w, self.height as int, x as int, y as int);
            }
            self.set_pixel_unchecked(x, y, c);
            assert forall|k: int| 0 <= k < old(self)@.len() implies #[trigger] self@[k] == (
                if k % w == x && y_start <= k / w < y + 1 {
                    shaded(line_texel(*texture, tex_x as int, y_start as int, y_end as int, k / w), shade)
                } else {
                    old(self)@[k]
                }) by {
                lemma_index_in_grid(w, self.height as int, k);
            }
            y = y + 1;
        }
        assert forall|k: int| 0 <= k < old(self)@.len() implies #[trigger] self@[k] == (
            if x < old(self).width && k % (old(self).width as int) == x
                && y_start <= k / (old(self).width as int) < y_end {
                shaded(line_texel(*texture, tex_x as int, y_start as int, y_end as int, k / (old(self).width as int)), shade)
            } else {
                old(self)@[k]
            }) by {
            lemma_index_in_grid(w, self.height as int, k);
        }
    }
}

impl Rgba {
    pub open spec fn black_spec() -> Rgba {
        Rgba { r: 0, g: 0, b: 0, a: 255 }
    }
}

} // verus!
