use vstd::prelude::*;
use vstd::arithmetic::div_mod::{lemma_fundamental_div_mod, lemma_fundamental_div_mod_converse, lemma_div_is_ordered};
use crate::color::{Rgba, SHADE_ONE, shaded, shade_color};
use crate::caster::{RayHit, DIR_ONE, MAX_COORD, TEX_U_ONE, abs, floor_div};
use crate::framebuffer::{Framebuffer, MAX_SCREEN, lemma_index_in_grid};
use crate::maze::{WallType, MAX_TILE};
use crate::shading::{orientation_shade, distance_shade, fog_blend, orientation_shade_factor,
    distance_shade_factor, apply_fog};
use crate::texture::{Texture, TextureKind, TextureManager, clamp_index};

verus! {

/// Brightness of the ceiling.
pub const CEILING_SHADE: u32 = 218;

/// Brightness of the floor before fog.
pub const FLOOR_SHADE: u32 = 230;

/// Largest tiling density, in texels per tile.
pub const MAX_DENSITY: u32 = 65536;

/// Largest number of rays in one frame.
pub const MAX_RAYS: usize = 65536;

/// The tunable quantities of compositing.
#[derive(Clone, Copy, Debug)]
pub struct RenderConfig {
    /// World units per cell: a wall at this distance fills the screen's height.
    pub tile_size: u32,
    /// Distance at which distance shading is darkest.
    pub max_depth: u64,
    /// Distance at which the floor is entirely fog.
    pub fog_distance: u64,
    pub fog_color: Rgba,
    /// Texels of the floor texture per tile.
    pub floor_density: u32,
    /// Texels of the ceiling texture per tile.
    pub ceiling_density: u32,
    /// World units by which the ceiling sample moves per screen row, for a sense of depth.
    pub ceiling_parallax: u32,
}

impl RenderConfig {
    pub open spec fn wf(&self) -> bool {
        &&& 1 <= self.tile_size <= MAX_TILE
        &&& self.floor_density <= MAX_DENSITY
        &&& self.ceiling_density <= MAX_DENSITY
        &&& self.ceiling_parallax <= MAX_TILE
    }
}

/// Height on screen of a wall one tile high: the screen height over the distance in tiles,
/// with distances below a tenth of a tile drawn as if at a tenth of a tile.
pub open spec fn wall_height(distance: int, screen_h: int, tile: int) -> int {
    let d10 = if 10 * distance > tile { 10 * distance } else { tile };
    screen_h * tile * 10 / d10
}

/// First row of a wall span of height `lh` centered on the screen's midline, cut at row 0.
pub open spec fn span_start(lh: int, screen_h: int) -> int {
    if lh / 2 >= screen_h / 2 { 0 } else { screen_h / 2 - lh / 2 }
}

/// One past the last row of the wall span (may lie below the screen).
pub open spec fn span_end(lh: int, screen_h: int) -> int {
    screen_h / 2 + lh / 2
}

/// A texture coordinate tiled across the world: `|c| * density / tile`, wrapped.
pub open spec fn tile_coord(c: int, density: int, tile: int, size: int) -> int {
    (abs(c) * density / tile) % size
}

/// Orientation shade times distance shade.
pub open spec fn wall_shade(hit: RayHit, max_depth: int) -> int {
    orientation_shade(hit.hit_vertical) * distance_shade(hit.distance as int, max_depth) / SHADE_ONE as int
}

pub open spec fn wall_texture(textures: TextureManager, hit: RayHit) -> Texture {
    if hit.wall_type == WallType::Exit { textures.wall_exit } else { textures.wall }
}

/// A wall pixel: the texture column at the hit's texture-U, stretched over the span.
pub open spec fn wall_pixel(hit: RayHit, tex: Texture, max_depth: int, start: int, end: int, y: int) -> Rgba {
    shaded(
        tex.texel(
            clamp_index(hit.wall_x as int * tex.width / TEX_U_ONE as int, tex.width as int),
            clamp_index((y - start) * tex.height / (end - start), tex.height as int),
        ),
        wall_shade(hit, max_depth) as u32,
    )
}

/// A ceiling pixel: sampled by the viewer's position, shifted per row.
pub open spec fn ceiling_pixel(tex: Texture, px: int, py: int, cfg: RenderConfig, y: int) -> Rgba {
    let shift = y * cfg.ceiling_parallax;
    shaded(
        tex.texel(
            tile_coord(px + shift, cfg.ceiling_density as int, cfg.tile_size as int, tex.width as int),
            tile_coord(py + shift, cfg.ceiling_density as int, cfg.tile_size as int, tex.height as int),
        ),
        CEILING_SHADE,
    )
}

/// World distance to the floor seen at row y: half the screen height over the row's
/// offset below the midline, in tiles.
pub open spec fn row_distance(y: int, screen_h: int, tile: int) -> int {
    let off = if 2 * y - screen_h > 2 { 2 * y - screen_h } else { 2 };
    tile * screen_h / off
}

/// A floor pixel: the floor point seen along the ray at row y's distance, fogged by the
/// distance of the column's wall.
pub open spec fn floor_pixel(tex: Texture, hit: RayHit, px: int, py: int, cfg: RenderConfig, screen_h: int, y: int) -> Rgba {
    let rd = row_distance(y, screen_h, cfg.tile_size as int);
    let fx = px + hit.dir.x * rd / (2 * DIR_ONE);
    let fy = py + hit.dir.y * rd / (2 * DIR_ONE);
    let base = tex.texel(
        tile_coord(fx, cfg.floor_density as int, cfg.tile_size as int, tex.width as int),
        tile_coord(fy, cfg.floor_density as int, cfg.tile_size as int, tex.height as int),
    );
    fog_blend(shaded(base, FLOOR_SHADE), hit.distance as int, cfg.fog_distance as int, cfg.fog_color)
}

/// Row y of the column drawn for `hit`: ceiling above the wall span, wall inside it,
/// floor below.
pub open spec fn column_pixel(hit: RayHit, textures: TextureManager, px: int, py: int, cfg: RenderConfig, screen_h: int, y: int) -> Rgba {
    let lh = wall_height(hit.distance as int, screen_h, cfg.tile_size as int);
    let start = span_start(lh, screen_h);
    let end = span_end(lh, screen_h);
    if y < start {
        ceiling_pixel(textures.ceiling, px, py, cfg, y)
    } else if y < end {
        wall_pixel(hit, wall_texture(textures, hit), cfg.max_depth as int, start, end, y)
    } else {
        floor_pixel(textures.floor, hit, px, py, cfg, screen_h, y)
    }
}

/// The ray whose columns `[i * w / n, (i + 1) * w / n)` hold screen column x.
pub open spec fn ray_for_column(x: int, w: int, n: int) -> int {
    ((x + 1) * n - 1) / w
}

/// The pixel at (x, y) of a frame of `w` columns drawn from `hits`; black with no hits.
pub open spec fn frame_pixel(hits: Seq<RayHit>, textures: TextureManager, px: int, py: int, cfg: RenderConfig, w: int, h: int, x: int, y: int) -> Rgba {
    if hits.len() == 0 {
        Rgba { r: 0, g: 0, b: 0, a: 255 }
    } else {
        column_pixel(hits[ray_for_column(x, w, hits.len() as int)], textures, px, py, cfg, h, y)
    }
}

/// Screen column x lies in the span of ray i exactly when `ray_for_column` names i.
pub proof fn lemma_ray_for_column(i: int, n: int, w: int, x: int)
    requires
        0 <= i < n,
        0 < w,
        i * w / n <= x < (i + 1) * w / n,
    ensures
        ray_for_column(x, w, n) == i,
{
    let a = i * w;
    let b = (i + 1) * w;
    lemma_fundamental_div_mod(a, n);
    lemma_fundamental_div_mod(b, n);
    let qa = a / n;
    let ra = a % n;
    let qb = b / n;
    let rb = b % n;
    assert(a < (x + 1) * n) by (nonlinear_arith)
        requires a == n * qa + ra, 0 <= ra < n, qa <= x;
    assert((x + 1) * n <= b) by (nonlinear_arith)
        requires b == n * qb + rb, 0 <= rb, x + 1 <= qb, n > 0;
    assert(i * w <= (x + 1) * n - 1 < (i + 1) * w) by (nonlinear_arith)
        requires a == i * w, b == (i + 1) * w, a < (x + 1) * n, (x + 1) * n <= b;
    assert((i + 1) * w == i * w + w) by (nonlinear_arith);
    lemma_fundamental_div_mod_converse((x + 1) * n - 1, w, i, (x + 1) * n - 1 - i * w);
}

/// `tile_coord` for a coordinate whose magnitude fits the ray-casting range.
fn tile_coord_of(c: i64, density: u32, tile: u32, size: usize) -> (r: usize)
    requires
        -2 * MAX_COORD <= c <= 2 * MAX_COORD,
        density <= MAX_DENSITY,
        1 <= tile,
        1 <= size,
    ensures
        r == tile_coord(c as int, density as int, tile as int, size as int),
        r < size,
{
    let a: u64 = if c < 0 { (-c) as u64 } else { c as u64 };
    assert(a as int * density as int <= 2 * MAX_COORD * MAX_DENSITY) by (nonlinear_arith)
        requires a <= 2 * MAX_COORD, density <= MAX_DENSITY;
    let scaled: u64 = (a * density as u64) / tile as u64;
    (scaled % size as u64) as usize
}

/// The rows `[start, end)` that the wall of `distance` covers, before cutting to the screen.
fn wall_span(distance: u64, screen_h: usize, tile: u32) -> (r: (u64, u64))
    requires
        screen_h <= MAX_SCREEN,
        1 <= tile <= MAX_TILE,
    ensures
        r.0 == span_start(wall_height(distance as int, screen_h as int, tile as int), screen_h as int),
        r.1 == span_end(wall_height(distance as int, screen_h as int, tile as int), screen_h as int),
        r.0 <= screen_h / 2 <= r.1,
        r.1 <= MAX_SCREEN * MAX_TILE * 10,
{
    let d10: u128 = if 10 * (distance as u128) > tile as u128 { 10 * (distance as u128) } else { tile as u128 };
    assert(screen_h as int * tile as int * 10 <= MAX_SCREEN * MAX_TILE * 10) by (nonlinear_arith)
        requires screen_h <= MAX_SCREEN, tile <= MAX_TILE;
    let num: u128 = screen_h as u128 * tile as u128 * 10;
    let lh128: u128 = num / d10;
    assert(lh128 <= num) by (nonlinear_arith)
        requires lh128 == num as int / (d10 as int), d10 >= 1, num >= 0;
    let lh: u64 = lh128 as u64;
    let mid: u64 = (screen_h / 2) as u64;
    let start: u64 = if lh / 2 >= mid { 0 } else { mid - lh / 2 };
    (start, mid + lh / 2)
}

fn ceiling_color(tex: &Texture, px: i64, py: i64, cfg: &RenderConfig, y: usize) -> (c: Rgba)
    requires
        tex.wf(),
        cfg.wf(),
        -MAX_COORD <= px <= MAX_COORD,
        -MAX_COORD <= py <= MAX_COORD,
        y < MAX_SCREEN,
    ensures
        c == ceiling_pixel(*tex, px as int, py as int, *cfg, y as int),
{
    assert(y as int * cfg.ceiling_parallax as int <= MAX_SCREEN * MAX_TILE) by (nonlinear_arith)
        requires y < MAX_SCREEN, cfg.ceiling_parallax <= MAX_TILE;
    let shift: i64 = (y as u64 * cfg.ceiling_parallax as u64) as i64;
    let u = tile_coord_of(px + shift, cfg.ceiling_density, cfg.tile_size, tex.width);
    let v = tile_coord_of(py + shift, cfg.ceiling_density, cfg.tile_size, tex.height);
    shade_color(tex.sample_point(u, v), CEILING_SHADE)
}

fn wall_color(hit: &RayHit, tex: &Texture, max_depth: u64, start: u64, end: u64, y: u64) -> (c: Rgba)
    requires
        tex.wf(),
        start <= y < end,
        end <= MAX_SCREEN * MAX_TILE * 10,
    ensures
        c == wall_pixel(*hit, *tex, max_depth as int, start as int, end as int, y as int),
{
    let o = orientation_shade_factor(hit.hit_vertical);
    let d = distance_shade_factor(hit.distance, max_depth);
    assert(o * d <= SHADE_ONE * SHADE_ONE) by (nonlinear_arith)
        requires o <= SHADE_ONE, d <= SHADE_ONE;
    assert((o * d) as int / SHADE_ONE as int <= SHADE_ONE) by (nonlinear_arith)
        requires o * d <= SHADE_ONE * SHADE_ONE;
    let shade: u32 = o * d / SHADE_ONE;
    assert(hit.wall_x as int * tex.width <= 0xffff_ffff * 65536) by (nonlinear_arith)
        requires hit.wall_x <= 0xffff_ffff, tex.width <= 65536;
    let tx: u64 = (hit.wall_x as u64 * tex.width as u64) / TEX_U_ONE as u64;
    assert((y - start) as int * tex.height <= MAX_SCREEN * MAX_TILE * 10 * 65536) by (nonlinear_arith)
        requires y - start <= MAX_SCREEN * MAX_TILE * 10, tex.height <= 65536;
    let ty: u64 = ((y - start) * tex.height as u64) / (end - start);
    proof {
        let num = (y - start) as int * tex.height;
        let den = (end - start) as int;
        lemma_fundamental_div_mod(num, den);
        let q = num / den;
        assert(den * q <= num);
        assert(num < den * tex.height) by (nonlinear_arith)
            requires num == (y - start) as int * tex.height, (y - start) < den, tex.height >= 1;
        assert(q < tex.height) by (nonlinear_arith)
            requires den * q < den * tex.height, den >= 1;
        lemma_div_is_ordered(hit.wall_x as int * tex.width, 0xffff_ffff * 65536 as int, TEX_U_ONE as int);
    }
    assert(tx <= 0x1_0000_0000);
    shade_color(tex.sample_point(tx as usize, ty as usize), shade)
}

fn floor_color(tex: &Texture, hit: &RayHit, px: i64, py: i64, cfg: &RenderConfig, screen_h: usize, y: usize) -> (c: Rgba)
    requires
        tex.wf(),
        cfg.wf(),
        hit.dir.in_range(),
        -MAX_COORD <= px <= MAX_COORD,
        -MAX_COORD <= py <= MAX_COORD,
        y < screen_h <= MAX_SCREEN,
    ensures
        c == floor_pixel(*tex, *hit, px as int, py as int, *cfg, screen_h as int, y as int),
{
    let off: i64 = if 2 * (y as i64) - (screen_h as i64) > 2 { 2 * (y as i64) - (screen_h as i64) } else { 2 };
    assert(cfg.tile_size as int * screen_h as int <= MAX_TILE * MAX_SCREEN) by (nonlinear_arith)
        requires cfg.tile_size <= MAX_TILE, screen_h <= MAX_SCREEN;
    let rd: i64 = ((cfg.tile_size as u64 * screen_h as u64) / off as u64) as i64;
    assert(rd <= cfg.tile_size as int * screen_h as int) by (nonlinear_arith)
        requires rd == (cfg.tile_size as int * screen_h as int) / (off as int), off >= 2,
            cfg.tile_size as int * screen_h as int >= 0;
    assert(-0x2_0000 * (MAX_TILE * MAX_SCREEN) <= hit.dir.x * rd <= 0x2_0000 * (MAX_TILE * MAX_SCREEN)) by (nonlinear_arith)
        requires -0x2_0000 <= hit.dir.x <= 0x2_0000, 0 <= rd <= MAX_TILE * MAX_SCREEN;
    assert(-0x2_0000 * (MAX_TILE * MAX_SCREEN) <= hit.dir.y * rd <= 0x2_0000 * (MAX_TILE * MAX_SCREEN)) by (nonlinear_arith)
        requires -0x2_0000 <= hit.dir.y <= 0x2_0000, 0 <= rd <= MAX_TILE * MAX_SCREEN;
    let fx: i64 = px + floor_div(hit.dir.x * rd, 2 * DIR_ONE);
    let fy: i64 = py + floor_div(hit.dir.y * rd, 2 * DIR_ONE);
    let u = tile_coord_of(fx, cfg.floor_density, cfg.tile_size, tex.width);
    let v = tile_coord_of(fy, cfg.floor_density, cfg.tile_size, tex.height);
    let base = shade_color(tex.sample_point(u, v), FLOOR_SHADE);
    apply_fog(base, hit.distance, cfg.fog_distance, cfg.fog_color)
}

/// The `screen_h` pixels of the column drawn for `hit`, top to bottom.
pub fn column_colors(hit: &RayHit, textures: &TextureManager, px: i64, py: i64, cfg: &RenderConfig, screen_h: usize) -> (col: Vec<Rgba>)
    requires
        textures.wf(),
        cfg.wf(),
        hit.dir.in_range(),
        -MAX_COORD <= px <= MAX_COORD,
        -MAX_COORD <= py <= MAX_COORD,
        screen_h <= MAX_SCREEN,
    ensures
        col@.len() == screen_h,
        forall|y: int| 0 <= y < screen_h ==> #[trigger] col@[y] == column_pixel(*hit, *textures, px as int, py as int, *cfg, screen_h as int, y),
{
    let (start, end) = wall_span(hit.distance, screen_h, cfg.tile_size);
    let wall_tex: &Texture = if hit.wall_type == WallType::Exit {
        textures.get_texture(TextureKind::WallExit)
    } else {
        textures.get_texture(TextureKind::Wall)
    };
    let mut col: Vec<Rgba> = Vec::with_capacity(screen_h);
    let mut y: usize = 0;
    while y < screen_h
        invariant
            y <= screen_h,
            col@.len() == y,
            textures.wf(),
            cfg.wf(),
            hit.dir.in_range(),
            -MAX_COORD <= px <= MAX_COORD,
            -MAX_COORD <= py <= MAX_COORD,
            screen_h <= MAX_SCREEN,
            *wall_tex == wall_texture(*textures, *hit),
            start == span_start(wall_height(hit.distance as int, screen_h as int, cfg.tile_size as int), screen_h as int),
            end == span_end(wall_height(hit.distance as int, screen_h as int, cfg.tile_size as int), screen_h as int),
            end <= MAX_SCREEN * MAX_TILE * 10,
            forall|j: int| 0 <= j < y ==> #[trigger] col@[j] == column_pixel(*hit, *textures, px as int, py as int, *cfg, screen_h as int, j),
        decreases screen_h - y,
    {
        let c = if (y as u64) < start {
            ceiling_color(&textures.ceiling, px, py, cfg, y)
        } else if (y as u64) < end {
            wall_color(hit, wall_tex, cfg.max_depth, start, end, y as u64)
        } else {
            floor_color(&textures.floor, hit, px, py, cfg, screen_h, y)
        };
        col.push(c);
        y = y + 1;
    }
    col
}

impl Framebuffer {
    /// Fills columns `[x_start, x_end)` of row y with the ceiling as seen from
    /// (player_x, player_y): `ceiling_pixel`.
    pub fn draw_textured_ceiling_span(&mut self, y: usize, x_start: usize, x_end: usize, texture: &Texture,
        player_x: i64, player_y: i64, cfg: &RenderConfig)
        requires
            old(self).wf(),
            texture.wf(),
            cfg.wf(),
            -MAX_COORD <= player_x <= MAX_COORD,
            -MAX_COORD <= player_y <= MAX_COORD,
        ensures
            final(self).wf(),
            final(self).width == old(self).width,
            final(self).height == old(self).height,
            forall|k: int| 0 <= k < old(self)@.len() ==> #[trigger] final(self)@[k] == (
                if y < old(self).height && k / (old(self).width as int) == y
                    && x_start <= k % (old(self).width as int) < x_end {
                    ceiling_pixel(*texture, player_x as int, player_y as int, *cfg, y as int)
                } else {
                    old(self)@[k]
                }),
    {
        if y >= self.height {
            return;
        }
        let c = ceiling_color(texture, player_x, player_y, cfg, y);
        self.draw_horizontal_line(y, x_start, x_end, c);
    }

    /// Fills columns `[x_start, x_end)` of row y with the floor seen along `hit`'s ray,
    /// fogged by the hit's distance: `floor_pixel`.
    pub fn draw_textured_floor_span(&mut self, y: usize, x_start: usize, x_end: usize, texture: &Texture,
        hit: &RayHit, player_x: i64, player_y: i64, cfg: &RenderConfig)
        requires
            old(self).wf(),
            texture.wf(),
            cfg.wf(),
            hit.dir.in_range(),
            -MAX_COORD <= player_x <= MAX_COORD,
            -MAX_COORD <= player_y <= MAX_COORD,
        ensures
            final(self).wf(),
            final(self).width == old(self).width,
            final(self).height == old(self).height,
            forall|k: int| 0 <= k < old(self)@.len() ==> #[trigger] final(self)@[k] == (
                if y < old(self).height && k / (old(self).width as int) == y
                    && x_start <= k % (old(self).width as int) < x_end {
                    floor_pixel(*texture, *hit, player_x as int, player_y as int, *cfg, old(self).height as int, y as int)
                } else {
                    old(self)@[k]
                }),
    {
        if y >= self.height {
            return;
        }
        let c = floor_color(texture, hit, player_x, player_y, cfg, self.height, y);
        self.draw_horizontal_line(y, x_start, x_end, c);
    }

    /// `color` blended toward `fog_color` by `min(distance / max_distance, 1)`.
    pub fn apply_fog(color: Rgba, distance: u64, max_distance: u64, fog_color: Rgba) -> (r: Rgba)
        ensures
            r == fog_blend(color, distance as int, max_distance as int, fog_color),
    {
        apply_fog(color, distance, max_distance, fog_color)
    }
}

/// Paints one frame: for each hit, in order, a band of screen columns of equal share
/// holding ceiling, wall and floor. Every pixel is overwritten; with no hits the frame is
/// black.
pub fn render_frame(fb: &mut Framebuffer, hits: &Vec<RayHit>, textures: &TextureManager, px: i64, py: i64, cfg: &RenderConfig)
    requires
        old(fb).wf(),
        textures.wf(),
        cfg.wf(),
        hits@.len() <= MAX_RAYS,
        forall|i: int| 0 <= i < hits@.len() ==> (#[trigger] hits@[i]).dir.in_range(),
        -MAX_COORD <= px <= MAX_COORD,
        -MAX_COORD <= py <= MAX_COORD,
    ensures
        final(fb).wf(),
        final(fb).width == old(fb).width,
        final(fb).height == old(fb).height,
        forall|k: int| 0 <= k < final(fb)@.len() ==> #[trigger] final(fb)@[k] == frame_pixel(hits@, *textures,
            px as int, py as int, *cfg, old(fb).width as int, old(fb).height as int,
            k % (old(fb).width as int), k / (old(fb).width as int)),
{
    let n: usize = hits.len();
    let w: usize = fb.width;
    let h: usize = fb.height;
    if n == 0 {
        fb.clear(Rgba::black());
        return;
    }
    if w == 0 {
        assert(w * h == 0) by (nonlinear_arith)
            requires w == 0;
        return;
    }
    let mut i: usize = 0;
    let mut x: usize = 0;
    while i < n
        invariant
            fb.wf(),
            fb.width == w,
            fb.height == h,
            0 < n <= MAX_RAYS,
            n == hits@.len(),
            0 < w <= MAX_SCREEN,
            i <= n,
            x == (i * w) as int / n as int,
            x <= w,
            fb@.len() == w * h,
            textures.wf(),
            cfg.wf(),
            forall|j: int| 0 <= j < hits@.len() ==> (#[trigger] hits@[j]).dir.in_range(),
            -MAX_COORD <= px <= MAX_COORD,
            -MAX_COORD <= py <= MAX_COORD,
            forall|k: int| 0 <= k < fb@.len() && k % (w as int) < x ==> #[trigger] fb@[k] == frame_pixel(hits@, *textures, px as int, py as int, *cfg, w as int, h as int, k % (w as int), k / (w as int)),
        decreases n - i,
    {
        let col = column_colors(&hits[i], textures, px, py, cfg, h);
        assert((i + 1) * w <= MAX_RAYS * MAX_SCREEN) by (nonlinear_arith)
            requires i + 1 <= n, n <= MAX_RAYS, w <= MAX_SCREEN;
        let x_end: usize = (i + 1) * w / n;
        proof {
            assert(i * w <= (i + 1) * w) by (nonlinear_arith)
                requires w >= 0, i >= 0;
            lemma_div_is_ordered((i * w) as int, ((i + 1) * w) as int, n as int);
            assert((i + 1) * w <= n * w) by (nonlinear_arith)
                requires i + 1 <= n, w >= 0;
            lemma_div_is_ordered(((i + 1) * w) as int, (n * w) as int, n as int);
            vstd::arithmetic::div_mod::lemma_div_multiples_vanish(w as int, n as int);
        }
        while x < x_end
            invariant
                fb.wf(),
                fb.width == w,
                fb.height == h,
                0 < n <= MAX_RAYS,
                n == hits@.len(),
                0 < w <= MAX_SCREEN,
                i < n,
                (i * w) as int / n as int <= x,
                x <= x_end,
                x_end == ((i + 1) * w) as int / n as int,
                x_end <= w,
                fb@.len() == w * h,
                col@.len() == h,
                forall|y: int| 0 <= y < h ==> #[trigger] col@[y] == column_pixel(hits@[i as int], *textures, px as int, py as int, *cfg, h as int, y),
                forall|k: int| 0 <= k < fb@.len() && k % (w as int) < x ==> #[trigger] fb@[k] == frame_pixel(hits@, *textures, px as int, py as int, *cfg, w as int, h as int, k % (w as int), k / (w as int)),
            decreases x_end - x,
        {
            let ghost before = fb@;
            fb.fill_column(x, &col);
            proof {
                lemma_ray_for_column(i as int, n as int, w as int, x as int);
                assert forall|k: int| 0 <= k < fb@.len() && k % (w as int) < x + 1 implies #[trigger] fb@[k] == frame_pixel(hits@, *textures, px as int, py as int, *cfg, w as int, h as int, k % (w as int), k / (w as int)) by {
                    lemma_index_in_grid(w as int, h as int, k);
                    if k % (w as int) == x {
                        let y = k / (w as int);
                        assert(fb@[k] == col@[y]);
                        assert(col@[y] == column_pixel(hits@[i as int], *textures, px as int, py as int, *cfg, h as int, y));
                    } else {
                        assert(fb@[k] == before[k]);
                    }
                }
            }
            x = x + 1;
        }
        i = i + 1;
    }
    proof {
        vstd::arithmetic::div_mod::lemma_div_multiples_vanish(w as int, n as int);
        assert(n * w == w * n) by (nonlinear_arith);
        assert forall|k: int| 0 <= k < fb@.len() implies #[trigger] fb@[k] == frame_pixel(hits@, *textures, px as int, py as int, *cfg, w as int, h as int, k % (w as int), k / (w as int)) by {
            lemma_index_in_grid(w as int, h as int, k);
        }
    }
}

/// Rendering keeps no state between frames: two renders of the same hits, textures,
/// viewpoint and configuration into buffers of the same size give the same pixels,
/// whatever the buffers held before.
pub proof fn lemma_render_deterministic(hits: Seq<RayHit>, textures: TextureManager, px: int, py: int,
    cfg: RenderConfig, w: int, h: int, first: Seq<Rgba>, second: Seq<Rgba>)
    requires
        first.len() == w * h,
        second.len() == w * h,
        forall|k: int| 0 <= k < first.len() ==> #[trigger] first[k] == frame_pixel(hits, textures, px, py, cfg, w, h, k % w, k / w),
        forall|k: int| 0 <= k < second.len() ==> #[trigger] second[k] == frame_pixel(hits, textures, px, py, cfg, w, h, k % w, k / w),
    ensures
        first == second,
{
    assert(first =~= second);
}

} // verus!
