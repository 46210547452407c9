use backrooms_raycaster::maze::{Maze, MazeError};

fn lines(text: &str) -> Vec<Vec<char>> {
    text.split('\n').map(|l| l.chars().collect()).collect()
}

#[test]
fn markers_and_pills_are_found() {
    let m = Maze::from_lines(lines("#####\n#S.p#\n\n#p.E#\n#####"), 10).unwrap();
    assert_eq!((m.width, m.height, m.tile_size), (5, 4, 10));
    assert_eq!(m.start_pos, (15, 15));
    assert_eq!(m.goal_pos, (35, 25));
    assert_eq!(m.pill_positions, vec![(35, 15), (15, 25)]);
    assert_eq!(m.get_tile(3, 1), Some('.'));
    assert!(m.is_wall(3, 2));
    assert_eq!(m.get_wall_type(3, 2), 'E');
    assert_eq!(m.get_wall_type(0, 0), '#');
    assert_eq!(m.get_wall_type(1, 1), ' ');
    assert_eq!(m.get_tile(9, 9), None);
    assert!(m.is_wall(9, 9));
    assert!(m.is_wall(5, 0));
}

#[test]
fn missing_markers_default_to_cell_one_one() {
    let m = Maze::from_lines(lines("###\n#.#\n###"), 4).unwrap();
    assert_eq!(m.start_pos, (6, 6));
    assert_eq!(m.goal_pos, (6, 6));
    assert!(m.pill_positions.is_empty());
}

#[test]
fn last_marker_wins() {
    let m = Maze::from_lines(lines("S.S\n.S."), 2).unwrap();
    assert_eq!(m.start_pos, (3, 3));
}

#[test]
fn maze_errors() {
    assert_eq!(Maze::from_lines(lines("\n\n"), 4).err(), Some(MazeError::Empty));
    assert_eq!(Maze::from_lines(vec![], 4).err(), Some(MazeError::Empty));
    assert_eq!(Maze::from_lines(lines("#"), 0).err(), Some(MazeError::InvalidTileSize));
    let wide = vec![vec!['.'; 70000]];
    assert_eq!(Maze::from_lines(wide, 4).err(), Some(MazeError::TooLarge));
}

#[test]
fn walkability_and_goal() {
    let m = Maze::from_lines(lines("###\n#.E\n###"), 10).unwrap();
    assert!(m.is_walkable(15, 15));
    assert!(!m.is_walkable(5, 15));
    assert!(!m.is_walkable(-3, 15));
    assert!(!m.is_walkable(25, 15));
    assert!(!m.is_walkable(500, 500));
    assert!(!m.is_walkable(15, 35));
    assert!(m.is_goal(25, 18, 4));
    assert!(!m.is_goal(25, 19, 4));
}
