use backrooms_raycaster::caster::{RayCaster, RayDir, RayHit, DIR_ONE, TEX_U_ONE};
use backrooms_raycaster::maze::{Maze, WallType};

const TILE: u32 = 1024;

fn bordered(width: usize, height: usize) -> Maze {
    let mut lines: Vec<Vec<char>> = Vec::new();
    for y in 0..height {
        let mut row = Vec::new();
        for x in 0..width {
            let edge = x == 0 || y == 0 || x == width - 1 || y == height - 1;
            row.push(if edge { '#' } else { '.' });
        }
        lines.push(row);
    }
    Maze::from_lines(lines, TILE).unwrap()
}

fn dir_at(angle: f64) -> RayDir {
    RayDir {
        x: (angle.cos() * DIR_ONE as f64).round() as i64,
        y: (angle.sin() * DIR_ONE as f64).round() as i64,
    }
}

fn cast(maze: &Maze, x: i64, y: i64, dir: RayDir) -> RayHit {
    RayCaster::new(1, 20 * TILE as u64).cast_single_ray(x, y, dir, maze)
}

#[test]
fn corridor_of_three_tiles_ends_at_three_tiles() {
    let maze = bordered(5, 5);
    let t = TILE as i64;
    let hit = cast(&maze, t, 2 * t + t / 2, RayDir { x: DIR_ONE, y: 0 });
    assert_eq!(hit.distance, 3 * TILE as u64);
    assert!(hit.hit_vertical);
    assert_eq!((hit.map_x, hit.map_y), (4, 2));
    assert_eq!(hit.wall_type, WallType::Normal);
    assert_eq!(hit.wall_x, TEX_U_ONE / 2);
}

#[test]
fn center_of_five_by_five_faces_wall_one_and_a_half_tiles_away() {
    let maze = bordered(5, 5);
    let t = TILE as i64;
    let hit = cast(&maze, 2 * t + t / 2, 2 * t + t / 2, RayDir { x: DIR_ONE, y: 0 });
    assert_eq!(hit.distance, 3 * TILE as u64 / 2);
    assert!(hit.hit_vertical);
    let down = cast(&maze, 2 * t + t / 2, 2 * t + t / 2, RayDir { x: 0, y: DIR_ONE });
    assert_eq!(down.distance, 3 * TILE as u64 / 2);
    assert!(!down.hit_vertical);
    assert_eq!((down.map_x, down.map_y), (2, 4));
}

#[test]
fn distances_inside_a_bordered_grid_are_positive_and_within_the_diagonal() {
    let maze = bordered(7, 6);
    let t = TILE as i64;
    let diagonal = ((7.0f64 * 7.0 + 6.0 * 6.0).sqrt() * TILE as f64) as u64;
    let origins = [(t + 1, t + 1), (3 * t + 17, 2 * t + 900), (5 * t + t - 1, 4 * t + t - 1), (2 * t + t / 2, 3 * t + t / 3)];
    for &(ox, oy) in origins.iter() {
        for k in 0..360 {
            let hit = cast(&maze, ox, oy, dir_at(k as f64 * std::f64::consts::PI / 180.0));
            assert!(hit.distance > 0, "angle {} from {:?}", k, (ox, oy));
            assert!(hit.distance <= diagonal, "angle {} from {:?}: {}", k, (ox, oy), hit.distance);
        }
    }
}

#[test]
fn texture_u_stays_below_one() {
    let maze = bordered(9, 9);
    let t = TILE as i64;
    for k in 0..720 {
        let hit = cast(&maze, 4 * t + 333, 4 * t + 777, dir_at(k as f64 * std::f64::consts::PI / 360.0));
        assert!(hit.wall_x < TEX_U_ONE);
    }
}

#[test]
fn texture_u_is_continuous_along_a_wall() {
    let maze = bordered(9, 9);
    let t = TILE as i64;
    let mut last: Option<(i64, u32)> = None;
    for k in 0..200 {
        let y = t + 10 + k * 30;
        let hit = cast(&maze, 4 * t, y, RayDir { x: DIR_ONE, y: 0 });
        let u = hit.wall_x;
        assert_eq!(u as i64, ((y % t) * TEX_U_ONE as i64) / t);
        if let Some((row, prev)) = last {
            if row == hit.map_y {
                assert!(u > prev);
            }
        }
        last = Some((hit.map_y, u));
    }
}

#[test]
fn edge_rays_measure_along_the_ray() {
    let maze = bordered(20, 41);
    let t = TILE as i64;
    let ox = 2 * t + t / 2;
    let oy = 20 * t + t / 2;
    let heading = 0.0f64;
    let half_fov = std::f64::consts::PI / 6.0;
    let center = cast(&maze, ox, oy, dir_at(heading));
    let left = cast(&maze, ox, oy, dir_at(heading - half_fov));
    let right = cast(&maze, ox, oy, dir_at(heading + half_fov));
    assert!(center.hit_vertical && left.hit_vertical && right.hit_vertical);
    let expected = center.distance as f64 / half_fov.cos();
    assert!((left.distance as f64 - expected).abs() <= 2.0, "{} vs {}", left.distance, expected);
    assert!((right.distance as f64 - expected).abs() <= 2.0, "{} vs {}", right.distance, expected);
}

#[test]
fn exit_door_is_reported() {
    let lines: Vec<Vec<char>> = vec!["#####".chars().collect(), "#S..E".chars().collect(), "#####".chars().collect()];
    let maze = Maze::from_lines(lines, TILE).unwrap();
    let (sx, sy) = maze.start_pos;
    let hit = cast(&maze, sx, sy, RayDir { x: DIR_ONE, y: 0 });
    assert_eq!(hit.wall_type, WallType::Exit);
    assert_eq!((hit.map_x, hit.map_y), (4, 1));
    assert_eq!(hit.distance, 3 * TILE as u64 - TILE as u64 / 2);
}

#[test]
fn leaving_the_grid_stops_at_its_edge() {
    let lines: Vec<Vec<char>> = vec!["...".chars().collect(), "...".chars().collect()];
    let maze = Maze::from_lines(lines, TILE).unwrap();
    let t = TILE as i64;
    let hit = cast(&maze, t / 2, t / 2, RayDir { x: DIR_ONE, y: 0 });
    assert_eq!((hit.map_x, hit.map_y), (3, 0));
    assert_eq!(hit.distance, 3 * TILE as u64 - TILE as u64 / 2);
    let off = cast(&maze, -5 * t, t / 2, RayDir { x: -DIR_ONE, y: 0 });
    assert_eq!(off.map_x, -6);
}

#[test]
fn zero_direction_gives_a_zero_distance_hit() {
    let maze = bordered(5, 5);
    let t = TILE as i64;
    let hit = cast(&maze, 2 * t + 100, 2 * t + 100, RayDir { x: 0, y: 0 });
    assert_eq!(hit.distance, 0);
}

#[test]
fn cast_rays_gives_one_hit_per_column_in_order() {
    let maze = bordered(6, 6);
    let t = TILE as i64;
    let dirs: Vec<RayDir> = (0..16).map(|i| dir_at(-0.5 + i as f64 / 16.0)).collect();
    let caster = RayCaster::new(dirs.len(), 20 * TILE as u64);
    let hits = caster.cast_rays(2 * t, 3 * t, &dirs, &maze);
    assert_eq!(hits.len(), 16);
    for (i, hit) in hits.iter().enumerate() {
        assert_eq!(*hit, caster.cast_single_ray(2 * t, 3 * t, dirs[i], &maze));
        assert_eq!(hit.dir, dirs[i]);
    }
}

#[test]
fn cast_rays_returns_num_rays_hits_with_wall_types_of_their_cells() {
    let lines: Vec<Vec<char>> = vec!["#E#".chars().collect(), "#.#".chars().collect(), "###".chars().collect()];
    let maze = Maze::from_lines(lines, TILE).unwrap();
    let t = TILE as i64;
    let dirs = vec![RayDir { x: 0, y: -DIR_ONE }, RayDir { x: DIR_ONE, y: 0 }, RayDir { x: -DIR_ONE, y: 0 }];
    let caster = RayCaster::new(3, 20 * TILE as u64);
    let hits = caster.cast_rays(t + t / 2, t + t / 2, &dirs, &maze);
    assert_eq!(hits.len(), caster.num_rays);
    assert_eq!(hits.iter().map(|h| h.wall_type).collect::<Vec<_>>(), vec![WallType::Exit, WallType::Normal, WallType::Normal]);
    assert!(hits.iter().all(|h| h.wall_x < TEX_U_ONE && h.distance == TILE as u64 / 2));
}
