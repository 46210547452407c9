use backrooms_raycaster::caster::{RayCaster, RayDir, RayHit, DIR_ONE};
use backrooms_raycaster::color::Rgba;
use backrooms_raycaster::framebuffer::Framebuffer;
use backrooms_raycaster::maze::{Maze, WallType};
use backrooms_raycaster::render::{render_frame, RenderConfig};
use backrooms_raycaster::texture::{generate_texture, LoadedTextures, Texture, TextureKind, TextureManager};

const TILE: u32 = 1024;

fn config() -> RenderConfig {
    RenderConfig {
        tile_size: TILE,
        max_depth: 20 * TILE as u64,
        fog_distance: 15 * TILE as u64,
        fog_color: Rgba::new(80, 75, 50, 255),
        floor_density: 2,
        ceiling_density: 2,
        ceiling_parallax: TILE / 10,
    }
}

fn uniform(c: Rgba) -> Texture {
    Texture::new(vec![c; 4], 2, 2)
}

fn store() -> TextureManager {
    let loaded = LoadedTextures {
        wall: Some(uniform(Rgba::new(100, 100, 100, 255))),
        wall_exit: Some(uniform(Rgba::new(0, 0, 200, 255))),
        floor: Some(uniform(Rgba::new(0, 200, 0, 255))),
        ceiling: Some(uniform(Rgba::new(200, 0, 0, 255))),
    };
    TextureManager::new(8, loaded).unwrap()
}

fn hit(distance: u64) -> RayHit {
    RayHit { distance, wall_x: 0, hit_vertical: false, wall_type: WallType::Normal, map_x: 0, map_y: 0, dir: RayDir { x: DIR_ONE, y: 0 } }
}

#[test]
fn wall_at_one_tile_fills_the_column() {
    let mut fb = Framebuffer::new(4, 4);
    render_frame(&mut fb, &vec![hit(TILE as u64)], &store(), 0, 0, &config());
    for k in 0..16 {
        assert_eq!(fb.pixels()[k], Rgba::new(98, 98, 98, 255));
    }
}

#[test]
fn far_wall_shows_ceiling_wall_and_floor() {
    let mut fb = Framebuffer::new(2, 8);
    let mut h = hit(4 * TILE as u64);
    h.wall_type = WallType::Exit;
    h.hit_vertical = true;
    render_frame(&mut fb, &vec![h], &store(), 0, 0, &config());
    assert_eq!(fb.get_pixel(0, 0), Rgba::new(170, 0, 0, 255));
    assert_eq!(fb.get_pixel(1, 2), Rgba::new(170, 0, 0, 255));
    assert_eq!(fb.get_pixel(0, 3), Rgba::new(0, 0, 180, 255));
    assert_eq!(fb.get_pixel(1, 4), Rgba::new(0, 0, 180, 255));
    let floor = fb.get_pixel(0, 7);
    assert_eq!(floor, Rgba::new(21, 151, 13, 255));
}

#[test]
fn no_hits_gives_black() {
    let mut fb = Framebuffer::new(3, 3);
    fb.clear(Rgba::new(9, 9, 9, 9));
    render_frame(&mut fb, &vec![], &store(), 0, 0, &config());
    assert!(fb.pixels().iter().all(|p| *p == Rgba::new(0, 0, 0, 255)));
}

#[test]
fn rendering_twice_gives_identical_buffers() {
    let lines: Vec<Vec<char>> = vec!["######".chars().collect(), "#....#".chars().collect(), "#..#.E".chars().collect(), "######".chars().collect()];
    let maze = Maze::from_lines(lines, TILE).unwrap();
    let dirs: Vec<RayDir> = (0..40)
        .map(|i| {
            let a = -0.5 + i as f64 / 40.0;
            RayDir { x: (a.cos() * DIR_ONE as f64) as i64, y: (a.sin() * DIR_ONE as f64) as i64 }
        })
        .collect();
    let hits = RayCaster::new(40, 20 * TILE as u64).cast_rays(1500, 1700, &dirs, &maze);
    let textures = TextureManager::new(16, LoadedTextures { wall: None, wall_exit: None, floor: None, ceiling: None }).unwrap();
    let mut first = Framebuffer::new(64, 48);
    let mut second = Framebuffer::new(64, 48);
    second.clear(Rgba::new(1, 2, 3, 4));
    render_frame(&mut first, &hits, &textures, 1500, 1700, &config());
    render_frame(&mut second, &hits, &textures, 1500, 1700, &config());
    assert_eq!(first.pixels(), second.pixels());
    render_frame(&mut first, &hits, &textures, 1500, 1700, &config());
    assert_eq!(first.pixels(), second.pixels());
}

#[test]
fn columns_are_shared_evenly_between_rays() {
    let mut fb = Framebuffer::new(5, 2);
    let near = hit(TILE as u64);
    let mut exit = hit(TILE as u64);
    exit.wall_type = WallType::Exit;
    render_frame(&mut fb, &vec![near, exit], &store(), 0, 0, &config());
    let wall = Rgba::new(98, 98, 98, 255);
    let door = Rgba::new(0, 0, 197, 255);
    assert_eq!([fb.get_pixel(0, 0), fb.get_pixel(1, 1), fb.get_pixel(2, 0), fb.get_pixel(4, 1)], [wall, wall, door, door]);
}

#[test]
fn vignette_darkens_toward_the_corners() {
    let mut fb = Framebuffer::new(2, 2);
    fb.clear(Rgba::new(200, 200, 200, 255));
    fb.apply_vignette_effect(0, 2, 2);
    assert_eq!(fb.get_pixel(0, 0), Rgba::new(200, 200, 200, 255));
    fb.apply_vignette_effect(128, 2, 2);
    assert_eq!(fb.get_pixel(0, 0), Rgba::new(101, 101, 101, 255));
    let mut full = Framebuffer::new(2, 2);
    full.clear(Rgba::new(200, 200, 200, 255));
    full.apply_vignette_effect(256, 2, 2);
    assert_eq!(full.get_pixel(0, 0), Rgba::new(40, 40, 40, 255));
    assert_eq!(full.get_pixel(1, 1), Rgba::new(200, 200, 200, 255));
    let mut wide = Framebuffer::new(3, 1);
    wide.clear(Rgba::new(200, 200, 200, 255));
    wide.apply_vignette_effect(256, 4, 2);
    assert_eq!(wide.get_pixel(2, 0), Rgba::new(60, 60, 60, 255));
}

#[test]
fn drawing_primitives_stay_in_bounds() {
    let mut fb = Framebuffer::new(3, 3);
    let red = Rgba::new(255, 0, 0, 255);
    fb.set_pixel(5, 5, red);
    assert!(fb.pixels().iter().all(|p| *p == Rgba::black()));
    fb.set_pixel(1, 2, red);
    assert_eq!(fb.pixels()[7], red);
    fb.draw_vertical_line(0, 1, 99, red);
    assert_eq!([fb.get_pixel(0, 0), fb.get_pixel(0, 1), fb.get_pixel(0, 2)], [Rgba::black(), red, red]);
    fb.draw_horizontal_line(0, 1, 3, red);
    assert_eq!([fb.get_pixel(0, 0), fb.get_pixel(1, 0), fb.get_pixel(2, 0)], [Rgba::black(), red, red]);
    let tex = generate_texture(TextureKind::WallExit, 8);
    fb.draw_textured_line(2, 0, 3, &tex, 0, 128);
    assert_eq!(fb.get_pixel(2, 0), Rgba::new(15, 40, 100, 255));
    assert_eq!(fb.get_pixel(2, 1), Rgba::new(15, 40, 75, 255));
    assert_eq!(fb.get_pixel(2, 2), Rgba::new(15, 40, 100, 255));
    assert_eq!(Framebuffer::apply_fog(red, 5, 10, Rgba::black()), Rgba::new(127, 0, 0, 255));
}

#[test]
fn spans_paint_one_row() {
    let mut fb = Framebuffer::new(4, 4);
    let tex = uniform(Rgba::new(100, 100, 100, 255));
    fb.draw_textured_ceiling_span(1, 1, 3, &tex, 0, 0, &config());
    assert_eq!([fb.get_pixel(0, 1), fb.get_pixel(1, 1), fb.get_pixel(2, 1), fb.get_pixel(3, 1)],
        [Rgba::black(), Rgba::new(85, 85, 85, 255), Rgba::new(85, 85, 85, 255), Rgba::black()]);
    fb.draw_textured_floor_span(3, 0, 9, &tex, &hit(0), 0, 0, &config());
    assert_eq!(fb.get_pixel(3, 3), Rgba::new(89, 89, 89, 255));
    fb.draw_textured_floor_span(9, 0, 9, &tex, &hit(0), 0, 0, &config());
}

#[test]
fn wall_at_zero_distance_fills_an_odd_column_at_tile_size_one() {
    let mut cfg = config();
    cfg.tile_size = 1;
    let mut fb = Framebuffer::new(1, 5);
    render_frame(&mut fb, &vec![hit(0)], &store(), 0, 0, &cfg);
    for y in 0..5 {
        assert_eq!(fb.get_pixel(0, y), Rgba::new(100, 100, 100, 255), "row {}", y);
    }
}
