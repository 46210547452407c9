use backrooms_raycaster::caster::{RayDir, DIR_ONE};
use backrooms_raycaster::maze::Maze;
use backrooms_raycaster::player::{Player, Vector2};

fn room() -> Maze {
    let lines: Vec<Vec<char>> = vec!["#####".chars().collect(), "#...#".chars().collect(), "#...#".chars().collect(), "#####".chars().collect()];
    Maze::from_lines(lines, 1000).unwrap()
}

#[test]
fn health_is_clamped() {
    let mut p = Player::new(1500, 1500, 1000);
    p.take_damage(30);
    assert_eq!(p.health, 70);
    p.heal(50);
    assert_eq!(p.health, 100);
    p.take_damage(500);
    assert_eq!(p.health, 0);
    assert!(!p.is_alive());
}

#[test]
fn rotation_wraps_around() {
    let mut p = Player::new(1500, 1500, 1000);
    p.rotate(-1);
    assert_eq!(p.angle, 65535);
    p.rotate(70000);
    assert_eq!(p.angle, 4463);
}

#[test]
fn movement_stops_at_walls() {
    let maze = room();
    let mut p = Player::new(1500, 1500, 1000);
    assert_eq!(p.pos, Vector2::new(1500, 1500));
    let east = RayDir { x: DIR_ONE, y: 0 };
    p.move_forward(&maze, east, 100);
    assert_eq!(p.pos, Vector2::new(1800, 1500));
    p.move_backward(&maze, east, 100);
    assert_eq!(p.pos, Vector2::new(1500, 1500));
    p.move_left(&maze, east, 100);
    assert_eq!(p.pos, Vector2::new(1500, 1500));
    p.move_right(&maze, east, 100);
    assert_eq!(p.pos, Vector2::new(1500, 1800));
    p.move_forward(&maze, east, 1000);
    assert_eq!(p.pos, Vector2::new(1500, 1800));
    p.move_forward(&maze, east, 400);
    assert_eq!(p.pos, Vector2::new(2700, 1800));
}
