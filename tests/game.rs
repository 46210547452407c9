use backrooms_raycaster::caster::{RayDir, DIR_ONE};
use backrooms_raycaster::camera::Camera;
use backrooms_raycaster::enemy::Enemy;
use backrooms_raycaster::game::{FrameInput, GameState, State, ROUND_MS};
use backrooms_raycaster::maze::Maze;
use backrooms_raycaster::pill::{FloatingText, Pill, PillType};
use backrooms_raycaster::color::Rgba;
use backrooms_raycaster::player::Player;
use backrooms_raycaster::sprite::{Sprite, SpriteRenderer};

fn maze() -> Maze {
    let lines: Vec<Vec<char>> = vec![
        "#######".chars().collect(),
        "#S.p..#".chars().collect(),
        "#....E#".chars().collect(),
        "#######".chars().collect(),
    ];
    Maze::from_lines(lines, 1000).unwrap()
}

fn idle() -> FrameInput {
    FrameInput {
        enter_pressed: false,
        escape_pressed: false,
        forward: false,
        backward: false,
        strafe_left: false,
        strafe_right: false,
        turn_left: false,
        turn_right: false,
        mouse_pos: (0, 0),
        facing: RayDir { x: DIR_ONE, y: 0 },
    }
}

#[test]
fn session_starts_at_the_menu_with_pills_placed() {
    let g = GameState::new(maze(), &vec![true]);
    assert_eq!(g.state, State::Menu);
    assert_eq!(g.game_timer, ROUND_MS);
    assert_eq!(g.pills.len(), 1);
    assert_eq!(g.pills[0].pill_type, PillType::Red);
    assert_eq!((g.pills[0].pos.x, g.pills[0].pos.y), (3500, 1500));
    assert_eq!((g.player.pos.x, g.player.pos.y), (1500, 1500));
}

#[test]
fn enter_starts_play_and_the_clock_runs_out() {
    let mut g = GameState::new(maze(), &vec![false]);
    g.update(&idle(), 16);
    assert_eq!(g.state, State::Menu);
    let mut go = idle();
    go.enter_pressed = true;
    g.update(&go, 16);
    assert_eq!(g.state, State::Playing);
    g.update(&idle(), 1000);
    assert_eq!(g.game_timer, ROUND_MS - 1000);
    assert_eq!(g.idle_timer, 1000);
    g.game_timer = 500;
    g.update(&idle(), 600);
    assert_eq!((g.state, g.game_timer), (State::GameOver, 0));
    g.update(&go, 16);
    assert_eq!((g.state, g.game_timer), (State::Menu, ROUND_MS));
}

#[test]
fn idling_costs_health_and_brings_anxiety() {
    let mut g = GameState::new(maze(), &vec![false]);
    g.state = State::Playing;
    for _ in 0..5 {
        g.update(&idle(), 1000);
    }
    assert_eq!(g.player.health, 90);
    assert_eq!(g.idle_timer, 0);
    assert!(g.effects.anxiety_timer > 0);
}

#[test]
fn walking_over_a_pill_collects_it() {
    let mut g = GameState::new(maze(), &vec![true]);
    g.state = State::Playing;
    let mut walk = idle();
    walk.forward = true;
    for _ in 0..10 {
        g.update(&walk, 100);
    }
    assert!(g.pills[0].collected);
    assert_eq!(g.player.health, 85);
    assert_eq!(g.floating_texts.len(), 1);
    assert_eq!(g.floating_texts[0].text, "-15 HP");
    assert_eq!(g.state, State::Playing);
}

#[test]
fn reaching_the_exit_wins_and_escape_leaves() {
    let mut g = GameState::new(maze(), &vec![false]);
    g.state = State::Playing;
    g.player.pos.x = 4600;
    g.player.pos.y = 2500;
    g.update(&idle(), 16);
    assert_eq!(g.state, State::Victory);
    let mut go = idle();
    go.enter_pressed = true;
    g.update(&go, 16);
    assert_eq!(g.state, State::Menu);
    assert_eq!((g.player.pos.x, g.player.pos.y), (1500, 1500));
    g.state = State::Playing;
    let mut esc = idle();
    esc.escape_pressed = true;
    g.update(&esc, 16);
    assert_eq!(g.state, State::Menu);
}

#[test]
fn camera_turns_by_mouse_movement_after_the_first_frame() {
    let mut cam = Camera::new(31);
    let mut p = Player::new(1500, 1500, 1000);
    cam.update((100, 50), &mut p, 16);
    assert_eq!(p.angle, 0);
    cam.update((110, 50), &mut p, 1000);
    assert_eq!(p.angle, 310);
    cam.update((100, 50), &mut p, 500);
    assert_eq!(p.angle, 155);
    cam.reset();
    assert!(cam.is_first_frame);
}

#[test]
fn sprites_animate_and_measure_distance() {
    let mut s = Sprite::new_flickering_light(3000, 4000);
    s.update(60);
    assert_eq!((s.current_frame, s.animation_timer), (0, 60));
    s.update(40);
    assert_eq!((s.current_frame, s.animation_timer), (1, 0));
    for _ in 0..3 {
        s.update(100);
    }
    assert_eq!(s.current_frame, 0);
    let r = SpriteRenderer::new(1000);
    assert_eq!(r.sprite_distance_threshold, 20000);
    assert_eq!(r.calculate_distance(&s, 0, 0), 5000);
    assert_eq!(r.calculate_distance(&s, 3001, 4001), 1);
}

#[test]
fn pills_and_floating_texts() {
    let mut p = Pill::new(100, 100, PillType::Blue);
    assert!(p.can_collect(103, 104, 6));
    assert!(!p.can_collect(103, 104, 5));
    p.update(10);
    assert_eq!(p.glow_timer, 20);
    assert_eq!(p.get_color(), Rgba::new(50, 150, 255, 255));
    assert_eq!(p.get_glow_color(128), Rgba::new(25, 75, 127, 200));
    p.collected = true;
    assert!(!p.can_collect(100, 100, 6));
    let mut t = FloatingText::new("+10 HP".to_string(), 0, 0, Rgba::new(1, 2, 3, 255));
    t.update(750);
    assert_eq!((t.lifetime, t.z, t.color.a), (750, 750, 127));
    assert!(!t.is_expired());
    t.update(750);
    assert!(t.is_expired());
    let e = Enemy::new(5, 6, 1000);
    assert_eq!((e.pos.x, e.pos.y, e.health, e.speed), (5, 6, 100, 1000));
}
