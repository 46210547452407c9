use vstd::prelude::*;
use crate::color::Rgba;

verus! {

/// Normalized texture coordinates are fixed-point fractions of this value.
pub const UV_ONE: u32 = 65536;

/// Largest width or height of a texture.
pub const MAX_TEX_DIM: usize = 65536;

/// A fixed-size grid of pixels, stored row by row.
#[derive(Clone, Debug)]
pub struct Texture {
    pub pixels: Vec<Rgba>,
    pub width: usize,
    pub height: usize,
}

/// Why a texture or the texture store could not be built.
#[derive(Clone, Copy, Debug, PartialEq, Eq, Structural)]
pub enum TextureError {
    /// A width or height of zero, or above `MAX_TEX_DIM`.
    InvalidDimensions,
    /// The pixel data does not hold four bytes for each pixel.
    SizeMismatch,
    /// A texture is missing and no fallback can be generated at the configured size.
    NoFallback,
}

/// `c` clamped to `[0, dim - 1]`.
pub open spec fn clamp_index(c: int, dim: int) -> int {
    if c < dim { c } else { dim - 1 }
}

impl Texture {
    pub open spec fn wf(&self) -> bool {
        &&& 1 <= self.width <= MAX_TEX_DIM
        &&& 1 <= self.height <= MAX_TEX_DIM
        &&& self.pixels@.len() == self.width * self.height
    }

    /// The pixel in column `x`, row `y`.
    pub open spec fn texel(&self, x: int, y: int) -> Rgba {
        self.pixels@[y * self.width + x]
    }

    /// The pixel nearest to the normalized coordinates (u, v), clamped to the texture.
    pub open spec fn sample_spec(&self, u: int, v: int) -> Rgba {
        self.texel(
            clamp_index(u * self.width / UV_ONE as int, self.width as int),
            clamp_index(v * self.height / UV_ONE as int, self.height as int),
        )
    }

    pub fn new(pixels: Vec<Rgba>, width: usize, height: usize) -> (t: Texture)
        ensures
            t.pixels@ == pixels@,
            t.width == width,
            t.height == height,
    {
        Texture { pixels, width, height }
    }

    /// Builds a texture from RGBA bytes, four per pixel, row by row.
    pub fn from_rgba_bytes(width: usize, height: usize, bytes: &Vec<u8>) -> (r: Result<Texture, TextureError>)
        ensures
            (width == 0 || height == 0 || width > MAX_TEX_DIM || height > MAX_TEX_DIM)
                <==> r == Err::<Texture, TextureError>(TextureError::InvalidDimensions),
            (1 <= width <= MAX_TEX_DIM && 1 <= height <= MAX_TEX_DIM && bytes@.len() != 4 * (width * height))
                <==> r == Err::<Texture, TextureError>(TextureError::SizeMismatch),
            r is Ok <==> (1 <= width <= MAX_TEX_DIM && 1 <= height <= MAX_TEX_DIM && bytes@.len() == 4 * (width * height)),
            r is Ok ==> {
                let t = r->Ok_0;
                &&& t.wf()
                &&& t.width == width
                &&& t.height == height
                &&& forall|k: int| 0 <= k < width * height ==> #[trigger] t.pixels@[k] == (Rgba {
                    r: bytes@[4 * k],
                    g: bytes@[4 * k + 1],
                    b: bytes@[4 * k + 2],
                    a: bytes@[4 * k + 3],
                })
            },
    {
        if width == 0 || height == 0 || width > MAX_TEX_DIM || height > MAX_TEX_DIM {
            return Err(TextureError::InvalidDimensions);
        }
        assert(width * height <= MAX_TEX_DIM * MAX_TEX_DIM) by (nonlinear_arith)
            requires width <= MAX_TEX_DIM, height <= MAX_TEX_DIM;
        let n64: u64 = width as u64 * height as u64;
        if bytes.len() as u64 != 4 * n64 {
            return Err(TextureError::SizeMismatch);
        }
        let blen: usize = bytes.len();
        let n: usize = n64 as usize;
        let mut pixels: Vec<Rgba> = Vec::with_capacity(n);
        let mut k: usize = 0;
        while k < n
            invariant
                k <= n,
                n == width * height,
                n <= MAX_TEX_DIM * MAX_TEX_DIM,
                bytes@.len() == 4 * n,
                blen == bytes@.len(),
                pixels@.len() == k,
                forall|j: int| 0 <= j < k ==> #[trigger] pixels@[j] == (Rgba {
                    r: bytes@[4 * j],
                    g: bytes@[4 * j + 1],
                    b: bytes@[4 * j + 2],
                    a: bytes@[4 * j + 3],
                }),
            decreases n - k,
        {
            let p = Rgba { r: bytes[4 * k], g: bytes[4 * k + 1], b: bytes[4 * k + 2], a: bytes[4 * k + 3] };
            pixels.push(p);
            k = k + 1;
        }
        Ok(Texture { pixels, width, height })
    }

    /// Nearest-neighbor sample at normalized coordinates, fractions of `UV_ONE`; coordinates
    /// past the edge clamp to it.
    pub fn sample(&self, u: u32, v: u32) -> (c: Rgba)
        requires
            self.wf(),
        ensures
            c == self.sample_spec(u as int, v as int),
    {
        assert(u as int * self.width <= 0xffff_ffff * MAX_TEX_DIM) by (nonlinear_arith)
            requires u <= 0xffff_ffff, self.width <= MAX_TEX_DIM;
        assert(v as int * self.height <= 0xffff_ffff * MAX_TEX_DIM) by (nonlinear_arith)
            requires v <= 0xffff_ffff, self.height <= MAX_TEX_DIM;
        let x: u64 = (u as u64 * self.width as u64) / UV_ONE as u64;
        let y: u64 = (v as u64 * self.height as u64) / UV_ONE as u64;
        let x: usize = if x < self.width as u64 { x as usize } else { self.width - 1 };
        let y: usize = if y < self.height as u64 { y as usize } else { self.height - 1 };
        self.sample_point(x, y)
    }

    /// The pixel at (tex_x, tex_y), each clamped to the texture.
    pub fn sample_point(&self, tex_x: usize, tex_y: usize) -> (c: Rgba)
        requires
            self.wf(),
        ensures
            c == self.texel(clamp_index(tex_x as int, self.width as int), clamp_index(tex_y as int, self.height as int)),
    {
        let x: usize = if tex_x < self.width { tex_x } else { self.width - 1 };
        let y: usize = if tex_y < self.height { tex_y } else { self.height - 1 };
        let len: usize = self.pixels.len();
        proof {
            lemma_texel_index(self.width as int, self.height as int, x as int, y as int);
            assert(y * self.width + x < len);
        }
        self.pixels[y * self.width + x]
    }
}

/// A pixel's row-major index lies inside the texture.
pub proof fn lemma_texel_index(w: int, h: int, x: int, y: int)
    requires
        0 <= x < w,
        0 <= y < h,
    ensures
        0 <= y * w + x < w * h,
{
    assert(y * w + x < w * h) by (nonlinear_arith)
        requires 0 <= x < w, 0 <= y < h;
    assert(y * w >= 0) by (nonlinear_arith)
        requires 0 <= x < w, 0 <= y;
}

/// Which of the store's textures.
#[derive(Clone, Copy, Debug, PartialEq, Eq, Structural)]
pub enum TextureKind {
    Wall,
    WallExit,
    Floor,
    Ceiling,
}

/// Textures obtained from outside, any of which may be missing.
pub struct LoadedTextures {
    pub wall: Option<Texture>,
    pub wall_exit: Option<Texture>,
    pub floor: Option<Texture>,
    pub ceiling: Option<Texture>,
}

/// The four textures that rendering samples.
pub struct TextureManager {
    pub wall: Texture,
    pub wall_exit: Texture,
    pub floor: Texture,
    pub ceiling: Texture,
    /// Width and height of the generated fallback textures.
    pub texture_size: usize,
}

/// Whether fallback textures can be generated `size` pixels square: a positive size within
/// `MAX_TEX_DIM` whose pixel count fits in memory.
pub open spec fn can_generate(size: int) -> bool {
    1 <= size <= MAX_TEX_DIM && size * size <= usize::MAX
}

/// Width of a door or ceiling panel: a quarter of the texture, at least one pixel.
pub open spec fn panel_width(size: int) -> int {
    if size / 4 > 0 { size / 4 } else { 1 }
}

/// Yellow wallpaper with a diagonal stripe pattern.
pub open spec fn wall_texel(x: int, y: int) -> Rgba {
    let variation = ((x + y) % 16) * 20 / 16;
    Rgba { r: (230 - variation) as u8, g: (200 - variation) as u8, b: 0, a: 255 }
}

/// A blue door of alternating panels, each `panel_width` wide.
pub open spec fn door_texel(size: int, x: int, y: int) -> Rgba {
    let panel = panel_width(size);
    let is_panel = (x / panel) % 2 == 0 && (y / panel) % 2 == 0;
    Rgba { r: 30, g: 80, b: if is_panel { 200 } else { 150 }, a: 255 }
}

/// Off-white ceiling tiles with darker seams every `panel_width` pixels.
pub open spec fn ceiling_texel(size: int, x: int, y: int) -> Rgba {
    let panel = panel_width(size);
    let gray: u8 = if x % panel == 0 || y % panel == 0 { 200 } else { 240 };
    Rgba { r: gray, g: gray, b: (gray - 10) as u8, a: 255 }
}

/// Dull green-gray carpet with a scattered noise pattern.
pub open spec fn floor_texel(x: int, y: int) -> Rgba {
    let variation = ((x * 7 + y * 13) % 32) * 15 / 32;
    Rgba { r: (140 + variation) as u8, g: (160 + variation) as u8, b: (140 + variation) as u8, a: 255 }
}

/// The pattern of a generated texture of the given kind.
pub open spec fn fallback_texel(kind: TextureKind, size: int, x: int, y: int) -> Rgba {
    match kind {
        TextureKind::Wall => wall_texel(x, y),
        TextureKind::WallExit => door_texel(size, x, y),
        TextureKind::Floor => floor_texel(x, y),
        TextureKind::Ceiling => ceiling_texel(size, x, y),
    }
}

/// Whether `t` is the generated texture of `kind` at `size` by `size` pixels.
pub open spec fn is_fallback(t: Texture, kind: TextureKind, size: int) -> bool {
    &&& t.wf()
    &&& t.width == size
    &&& t.height == size
    &&& forall|x: int, y: int| 0 <= x < size && 0 <= y < size ==> #[trigger] t.texel(x, y) == fallback_texel(kind, size, x, y)
}

/// What the store holds for one slot: the loaded texture if it is well formed, else the
/// generated one.
pub open spec fn slot_ok(slot: Option<Texture>, t: Texture, kind: TextureKind, size: int) -> bool {
    match slot {
        Some(l) if l.wf() => t == l,
        _ => is_fallback(t, kind, size),
    }
}

pub open spec fn slot_usable(slot: Option<Texture>) -> bool {
    match slot {
        Some(l) => l.wf(),
        None => false,
    }
}

/// One pixel of a generated texture.
fn fallback_pixel(kind: TextureKind, size: usize, x: usize, y: usize) -> (c: Rgba)
    requires
        can_generate(size as int),
        x < size,
        y < size,
    ensures
        c == fallback_texel(kind, size as int, x as int, y as int),
{
    match kind {
        TextureKind::Wall => {
            let variation: u8 = (((x + y) % 16) * 20 / 16) as u8;
            Rgba { r: 230 - variation, g: 200 - variation, b: 0, a: 255 }
        },
        TextureKind::WallExit => {
            let panel: usize = if size / 4 > 0 { size / 4 } else { 1 };
            let is_panel = (x / panel) % 2 == 0 && (y / panel) % 2 == 0;
            Rgba { r: 30, g: 80, b: if is_panel { 200 } else { 150 }, a: 255 }
        },
        TextureKind::Floor => {
            let variation: u8 = (((x * 7 + y * 13) % 32) * 15 / 32) as u8;
            Rgba { r: 140 + variation, g: 160 + variation, b: 140 + variation, a: 255 }
        },
        TextureKind::Ceiling => {
            let panel: usize = if size / 4 > 0 { size / 4 } else { 1 };
            let gray: u8 = if x % panel == 0 || y % panel == 0 { 200 } else { 240 };
            Rgba { r: gray, g: gray, b: gray - 10, a: 255 }
        },
    }
}

/// Generates the procedural texture of `kind`, `size` pixels square.
pub fn generate_texture(kind: TextureKind, size: usize) -> (t: Texture)
    requires
        can_generate(size as int),
    ensures
        is_fallback(t, kind, size as int),
{
    assert(size * size >= 1) by (nonlinear_arith)
        requires size >= 1;
    let n: usize = size * size;
    let mut pixels: Vec<Rgba> = Vec::with_capacity(n);
    let mut k: usize = 0;
    while k < n
        invariant
            can_generate(size as int),
            n == size * size,
            k <= n,
            pixels@.len() == k,
            forall|j: int| 0 <= j < k ==> #[trigger] pixels@[j] == fallback_texel(kind, size as int, j % size as int, j / size as int),
        decreases n - k,
    {
        proof {
            vstd::arithmetic::div_mod::lemma_div_pos_is_pos(k as int, size as int);
            vstd::arithmetic::div_mod::lemma_div_is_ordered(k as int, n as int, size as int);
            vstd::arithmetic::div_mod::lemma_div_by_multiple(size as int, size as int);
            assert(n as int / size as int == size) by {
                vstd::arithmetic::div_mod::lemma_div_by_multiple(size as int, size as int);
                vstd::arithmetic::mul::lemma_mul_is_commutative(size as int, size as int);
            }
            assert(k as int / size as int != size as int) by {
                vstd::arithmetic::div_mod::lemma_fundamental_div_mod(k as int, size as int);
                if k as int / size as int >= size as int {
                    vstd::arithmetic::mul::lemma_mul_inequality(size as int, k as int / size as int, size as int);
                }
            }
        }
        let c = fallback_pixel(kind, size, k % size, k / size);
        pixels.push(c);
        k = k + 1;
    }
    let t = Texture { pixels, width: size, height: size };
    assert forall|x: int, y: int| 0 <= x < size && 0 <= y < size implies #[trigger] t.texel(x, y) == fallback_texel(kind, size as int, x, y) by {
        lemma_texel_index(size as int, size as int, x, y);
        vstd::arithmetic::div_mod::lemma_fundamental_div_mod_converse(y * size + x, size as int, y, x);
    }
    t
}

fn size_can_generate(size: usize) -> (r: bool)
    ensures
        r == can_generate(size as int),
{
    if size == 0 || size > MAX_TEX_DIM {
        return false;
    }
    assert(size * size <= MAX_TEX_DIM * MAX_TEX_DIM) by (nonlinear_arith)
        requires size <= MAX_TEX_DIM;
    (size as u64 * size as u64) <= usize::MAX as u64
}

/// `slot` where it holds a well-formed texture, else the generated one.
fn texture_or_fallback(slot: Option<Texture>, kind: TextureKind, size: usize) -> (r: Result<Texture, TextureError>)
    ensures
        match r {
            Ok(t) => slot_ok(slot, t, kind, size as int),
            Err(e) => e == TextureError::NoFallback && !slot_usable(slot)
                && !(can_generate(size as int)),
        },
        r is Err <==> (!slot_usable(slot) && !(can_generate(size as int))),
{
    match slot {
        Some(l) => {
            if 1 <= l.width && l.width <= MAX_TEX_DIM && 1 <= l.height && l.height <= MAX_TEX_DIM {
                assert(l.width * l.height <= MAX_TEX_DIM * MAX_TEX_DIM) by (nonlinear_arith)
                    requires l.width <= MAX_TEX_DIM, l.height <= MAX_TEX_DIM;
                if l.pixels.len() as u64 == l.width as u64 * l.height as u64 {
                    return Ok(l);
                }
            }
            if size_can_generate(size) {
                Ok(generate_texture(kind, size))
            } else {
                Err(TextureError::NoFallback)
            }
        },
        None => {
            if size_can_generate(size) {
                Ok(generate_texture(kind, size))
            } else {
                Err(TextureError::NoFallback)
            }
        },
    }
}

impl TextureManager {
    pub open spec fn wf(&self) -> bool {
        &&& self.wall.wf()
        &&& self.wall_exit.wf()
        &&& self.floor.wf()
        &&& self.ceiling.wf()
    }

    pub open spec fn texture_spec(&self, kind: TextureKind) -> Texture {
        match kind {
            TextureKind::Wall => self.wall,
            TextureKind::WallExit => self.wall_exit,
            TextureKind::Floor => self.floor,
            TextureKind::Ceiling => self.ceiling,
        }
    }

    /// Takes each loaded texture that is well formed and generates the others at
    /// `texture_size` square. Fails only when some texture must be generated and
    /// `texture_size` does not satisfy `can_generate`.
    pub fn new(texture_size: usize, loaded: LoadedTextures) -> (r: Result<TextureManager, TextureError>)
        ensures
            r is Err <==> (!(can_generate(texture_size as int)) && !(slot_usable(loaded.wall)
                && slot_usable(loaded.wall_exit) && slot_usable(loaded.floor) && slot_usable(loaded.ceiling))),
            r is Err ==> r->Err_0 == TextureError::NoFallback,
            r is Ok ==> {
                let m = r->Ok_0;
                &&& m.wf()
                &&& m.texture_size == texture_size
                &&& slot_ok(loaded.wall, m.wall, TextureKind::Wall, texture_size as int)
                &&& slot_ok(loaded.wall_exit, m.wall_exit, TextureKind::WallExit, texture_size as int)
                &&& slot_ok(loaded.floor, m.floor, TextureKind::Floor, texture_size as int)
                &&& slot_ok(loaded.ceiling, m.ceiling, TextureKind::Ceiling, texture_size as int)
            },
    {
        let LoadedTextures { wall, wall_exit, floor, ceiling } = loaded;
        let wall = match texture_or_fallback(wall, TextureKind::Wall, texture_size) {
            Ok(t) => t,
            Err(e) => return Err(e),
        };
        let wall_exit = match texture_or_fallback(wall_exit, TextureKind::WallExit, texture_size) {
            Ok(t) => t,
            Err(e) => return Err(e),
        };
        let floor = match texture_or_fallback(floor, TextureKind::Floor, texture_size) {
            Ok(t) => t,
            Err(e) => return Err(e),
        };
        let ceiling = match texture_or_fallback(ceiling, TextureKind::Ceiling, texture_size) {
            Ok(t) => t,
            Err(e) => return Err(e),
        };
        Ok(TextureManager { wall, wall_exit, floor, ceiling, texture_size })
    }

    /// The texture of the given kind.
    pub fn get_texture(&self, kind: TextureKind) -> (t: &Texture)
        ensures
            *t == self.texture_spec(kind),
    {
        match kind {
            TextureKind::Wall => &self.wall,
            TextureKind::WallExit => &self.wall_exit,
            TextureKind::Floor => &self.floor,
            TextureKind::Ceiling => &self.ceiling,
        }
    }
}

} // verus!
