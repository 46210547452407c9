use vstd::prelude::*;
use crate::caster::{RayCaster, RayDir};
use crate::camera::{Camera, MAX_MOUSE_DELTA, MAX_SENSITIVITY};
use crate::color::Rgba;
use crate::effects::{Effects, INTENSITY_ONE};
use crate::maze::{Maze, MAX_TILE};
use crate::pill::{FloatingText, Pill, PillType, TEXT_LIFETIME_MS};
use crate::player::{Player, PLAYER_MAX_COORD, in_world};
use crate::sprite::Sprite;

verus! {

/// Length of a round, in milliseconds.
pub const ROUND_MS: u32 = 180000;

/// Standing still this long, in milliseconds, costs health.
pub const IDLE_LIMIT_MS: u32 = 5000;

/// Largest frame time a session step accepts, in milliseconds.
pub const MAX_STEP_MS: u32 = 1000;

/// Where the game is.
#[derive(Clone, Copy, Debug, PartialEq, Eq, Structural)]
pub enum State {
    Menu,
    Playing,
    Victory,
    GameOver,
}

/// What the player did during one frame.
#[derive(Clone, Copy, Debug)]
pub struct FrameInput {
    pub enter_pressed: bool,
    pub escape_pressed: bool,
    pub forward: bool,
    pub backward: bool,
    pub strafe_left: bool,
    pub strafe_right: bool,
    pub turn_left: bool,
    pub turn_right: bool,
    pub mouse_pos: (i32, i32),
    /// The unit vector of the player's heading, in fractions of `DIR_ONE`.
    pub facing: RayDir,
}

impl FrameInput {
    pub open spec fn is_moving(&self) -> bool {
        self.forward || self.backward || self.strafe_left || self.strafe_right
    }
}

/// The session: the maze, the player, what lies in the maze, effects and timers.
/// Times are in milliseconds.
pub struct GameState {
    pub player: Player,
    pub maze: Maze,
    pub sprites: Vec<Sprite>,
    pub raycaster: RayCaster,
    pub camera: Camera,
    pub effects: Effects,
    pub state: State,
    pub time_in_darkness: u32,
    pub game_timer: u32,
    pub idle_timer: u32,
    pub pills: Vec<Pill>,
    pub floating_texts: Vec<FloatingText>,
}

/// A fresh player at the maze's start.
pub open spec fn fresh_player(m: &Maze) -> Player {
    Player {
        pos: crate::player::Vector2 { x: m.start_pos.0, y: m.start_pos.1 },
        angle: 0,
        health: 100,
        max_health: 100,
        move_speed: (3 * m.tile_size) as u32,
        rot_speed: 26075,
        collision_radius: (3 * m.tile_size / 10) as u32,
    }
}

pub open spec fn text_ok(t: FloatingText) -> bool {
    0 < t.lifetime <= TEXT_LIFETIME_MS && t.z == TEXT_LIFETIME_MS - t.lifetime
}

pub open spec fn pill_ok(p: Pill) -> bool {
    in_world(p.pos.x as int, p.pos.y as int)
}

impl GameState {
    pub open spec fn wf(&self) -> bool {
        &&& self.maze.wf()
        &&& self.player.wf()
        &&& 0 <= self.player.health <= self.player.max_health <= 1000
        &&& self.player.move_speed <= 4 * MAX_TILE
        &&& in_world(self.maze.start_pos.0 as int, self.maze.start_pos.1 as int)
        &&& -PLAYER_MAX_COORD <= self.maze.goal_pos.0 <= PLAYER_MAX_COORD
        &&& -PLAYER_MAX_COORD <= self.maze.goal_pos.1 <= PLAYER_MAX_COORD
        &&& self.camera.sensitivity <= MAX_SENSITIVITY
        &&& self.idle_timer < IDLE_LIMIT_MS
        &&& self.effects.anxiety_intensity <= INTENSITY_ONE
        &&& forall|i: int| 0 <= i < self.sprites@.len() ==> (#[trigger] self.sprites@[i]).num_frames > 0
        &&& forall|i: int| 0 <= i < self.pills@.len() ==> pill_ok(#[trigger] self.pills@[i])
        &&& forall|i: int| 0 <= i < self.floating_texts@.len() ==> text_ok(#[trigger] self.floating_texts@[i])
    }

    /// A session at the menu, a full round on the clock, the player at the maze's start,
    /// and a pill at each of the maze's pill positions: red where `red_pills` says so.
    pub fn new(maze: Maze, red_pills: &Vec<bool>) -> (g: GameState)
        requires
            maze.wf(),
            in_world(maze.start_pos.0 as int, maze.start_pos.1 as int),
            in_world(maze.goal_pos.0 as int, maze.goal_pos.1 as int),
            forall|i: int| 0 <= i < maze.pill_positions@.len() ==> in_world(
                (#[trigger] maze.pill_positions@[i]).0 as int, maze.pill_positions@[i].1 as int),
            red_pills@.len() == maze.pill_positions@.len(),
        ensures
            g.wf(),
            g.maze == maze,
            g.state == State::Menu,
            g.game_timer == ROUND_MS,
            g.idle_timer == 0,
            g.player == fresh_player(&maze),
            g.pills@.len() == maze.pill_positions@.len(),
            forall|i: int| 0 <= i < g.pills@.len() ==> (#[trigger] g.pills@[i]).pos.x == maze.pill_positions@[i].0
                && g.pills@[i].pos.y == maze.pill_positions@[i].1
                && g.pills@[i].pill_type == (if red_pills@[i] { PillType::Red } else { PillType::Blue })
                && !g.pills@[i].collected,
            g.floating_texts@.len() == 0,
    {
        let player = Player::new(maze.start_pos.0, maze.start_pos.1, maze.tile_size);
        let mut pills: Vec<Pill> = Vec::new();
        let mut i: usize = 0;
        while i < maze.pill_positions.len()
            invariant
                i <= maze.pill_positions@.len(),
                red_pills@.len() == maze.pill_positions@.len(),
                forall|j: int| 0 <= j < maze.pill_positions@.len() ==> in_world(
                    (#[trigger] maze.pill_positions@[j]).0 as int, maze.pill_positions@[j].1 as int),
                pills@.len() == i,
                forall|j: int| 0 <= j < i ==> (#[trigger] pills@[j]).pos.x == maze.pill_positions@[j].0
                    && pills@[j].pos.y == maze.pill_positions@[j].1
                    && pills@[j].pill_type == (if red_pills@[j] { PillType::Red } else { PillType::Blue })
                    && !pills@[j].collected,
            decreases maze.pill_positions@.len() - i,
        {
            let (x, y) = maze.pill_positions[i];
            let kind = if red_pills[i] { PillType::Red } else { PillType::Blue };
            pills.push(Pill::new(x, y, kind));
            i = i + 1;
        }
        assert forall|j: int| 0 <= j < pills@.len() implies pill_ok(#[trigger] pills@[j]) by {
            assert(in_world(maze.pill_positions@[j].0 as int, maze.pill_positions@[j].1 as int));
        }
        let tile = maze.tile_size;
        let mut sprites: Vec<Sprite> = Vec::new();
        sprites.push(Sprite::new_flickering_light(5 * tile as i64, 5 * tile as i64));
        sprites.push(Sprite::new_flickering_light(10 * tile as i64, 10 * tile as i64));
        GameState {
            player,
            raycaster: RayCaster::new(80, 20 * tile as u64),
            camera: Camera::new(31),
            effects: Effects::new(tile),
            state: State::Menu,
            time_in_darkness: 0,
            game_timer: ROUND_MS,
            idle_timer: 0,
            pills,
            floating_texts: Vec::new(),
            sprites,
            maze,
        }
    }
}

impl GameState {
    /// One frame of the session.
    ///
    /// At the menu, Enter starts a round: full clock, camera reset. While playing, the
    /// clock runs down and the round is lost when it runs out; otherwise idling for
    /// `IDLE_LIMIT_MS` costs 10 health and brings on anxiety, the player turns and moves,
    /// animations run, pills within 0.6 tiles are collected, and reaching within one tile
    /// of the goal wins, unless Escape returns to the menu. After a win or a loss, Enter
    /// returns to the menu with a fresh player (and, after a loss, a full clock).
    pub fn update(&mut self, input: &FrameInput, delta_ms: u32)
        requires
            old(self).wf(),
            input.facing.in_range(),
            delta_ms <= MAX_STEP_MS,
            -MAX_MOUSE_DELTA <= input.mouse_pos.0 - old(self).camera.last_mouse_pos.0 <= MAX_MOUSE_DELTA,
        ensures
            final(self).wf(),
            final(self).maze == old(self).maze,
            old(self).state == State::Menu ==> if input.enter_pressed {
                &&& final(self).state == State::Playing
                &&& final(self).game_timer == ROUND_MS
                &&& final(self).camera.is_first_frame
                &&& final(self).player == old(self).player
            } else {
                *final(self) == *old(self)
            },
            old(self).state == State::Playing && old(self).game_timer <= delta_ms ==>
                *final(self) == (GameState { state: State::GameOver, game_timer: 0, ..*old(self) }),
            old(self).state == State::Playing && old(self).game_timer > delta_ms ==> {
                &&& final(self).game_timer == old(self).game_timer - delta_ms
                &&& final(self).idle_timer == (if input.is_moving() || old(self).idle_timer + delta_ms >= IDLE_LIMIT_MS {
                    0
                } else {
                    old(self).idle_timer + delta_ms
                })
                &&& final(self).state == (if input.escape_pressed {
                    State::Menu
                } else if crate::pill::dist_sq(final(self).player.pos.x as int, final(self).player.pos.y as int,
                    old(self).maze.goal_pos.0 as int, old(self).maze.goal_pos.1 as int)
                    < old(self).maze.tile_size * old(self).maze.tile_size {
                    State::Victory
                } else {
                    State::Playing
                })
            },
            old(self).state == State::Victory ==> if input.enter_pressed {
                &&& final(self).state == State::Menu
                &&& final(self).player == fresh_player(&old(self).maze)
                &&& final(self).game_timer == old(self).game_timer
            } else {
                *final(self) == *old(self)
            },
            old(self).state == State::GameOver ==> if input.enter_pressed {
                &&& final(self).state == State::Menu
                &&& final(self).player == fresh_player(&old(self).maze)
                &&& final(self).game_timer == ROUND_MS
            } else {
                *final(self) == *old(self)
            },
    {
        match self.state {
            State::Menu => {
                if input.enter_pressed {
                    self.state = State::Playing;
                    self.camera.reset();
                    self.game_timer = ROUND_MS;
                }
            },
            State::Playing => {
                if self.game_timer <= delta_ms {
                    self.game_timer = 0;
                    self.state = State::GameOver;
                    return;
                }
                self.game_timer = self.game_timer - delta_ms;
                self.play(input, delta_ms);
            },
            State::Victory => {
                if input.enter_pressed {
                    self.player = Player::new(self.maze.start_pos.0, self.maze.start_pos.1, self.maze.tile_size);
                    self.state = State::Menu;
                }
            },
            State::GameOver => {
                if input.enter_pressed {
                    self.player = Player::new(self.maze.start_pos.0, self.maze.start_pos.1, self.maze.tile_size);
                    self.game_timer = ROUND_MS;
                    self.state = State::Menu;
                }
            },
        }
    }

    /// The body of a frame of play, once the clock has been run down.
    fn play(&mut self, input: &FrameInput, delta_ms: u32)
        requires
            old(self).wf(),
            old(self).state == State::Playing,
            input.facing.in_range(),
            delta_ms <= MAX_STEP_MS,
            -MAX_MOUSE_DELTA <= input.mouse_pos.0 - old(self).camera.last_mouse_pos.0 <= MAX_MOUSE_DELTA,
        ensures
            final(self).wf(),
            final(self).maze == old(self).maze,
            final(self).game_timer == old(self).game_timer,
            final(self).idle_timer == (if input.is_moving() || old(self).idle_timer + delta_ms >= IDLE_LIMIT_MS {
                0
            } else {
                old(self).idle_timer + delta_ms
            }),
            final(self).state == (if input.escape_pressed {
                State::Menu
            } else if crate::pill::dist_sq(final(self).player.pos.x as int, final(self).player.pos.y as int,
                old(self).maze.goal_pos.0 as int, old(self).maze.goal_pos.1 as int)
                < old(self).maze.tile_size * old(self).maze.tile_size {
                State::Victory
            } else {
                State::Playing
            }),
    {
        if input.forward || input.backward || input.strafe_left || input.strafe_right {
            self.idle_timer = 0;
        } else {
            self.idle_timer = self.idle_timer + delta_ms;
            if self.idle_timer >= IDLE_LIMIT_MS {
                self.player.take_damage(10);
                self.effects.trigger_anxiety_effect();
                self.idle_timer = 0;
            }
        }
        steer(&mut self.player, &mut self.camera, &self.maze, input, delta_ms);
        update_sprites(&mut self.sprites, delta_ms);
        self.collect_pills();
        age_texts(&mut self.floating_texts, delta_ms);
        self.effects.update(delta_ms);
        let tile: u64 = self.maze.tile_size as u64;
        if self.maze.is_goal(self.player.pos.x, self.player.pos.y, tile) {
            self.state = State::Victory;
        }
        if input.escape_pressed {
            self.state = State::Menu;
        }
    }
}

/// Turns the player by the mouse and the arrow keys and moves them by the movement keys.
fn steer(player: &mut Player, camera: &mut Camera, maze: &Maze, input: &FrameInput, delta_ms: u32)
    requires
        old(player).wf(),
        maze.wf(),
        old(camera).sensitivity <= MAX_SENSITIVITY,
        input.facing.in_range(),
        delta_ms <= MAX_STEP_MS,
        -MAX_MOUSE_DELTA <= input.mouse_pos.0 - old(camera).last_mouse_pos.0 <= MAX_MOUSE_DELTA,
    ensures
        final(player).wf(),
        final(player).health == old(player).health,
        final(player).max_health == old(player).max_health,
        final(camera).sensitivity == old(camera).sensitivity,
{
    camera.update(input.mouse_pos, player, delta_ms);
    if input.forward {
        player.move_forward(maze, input.facing, delta_ms);
    }
    if input.backward {
        player.move_backward(maze, input.facing, delta_ms);
    }
    if input.strafe_left {
        player.move_left(maze, input.facing, delta_ms);
    }
    if input.strafe_right {
        player.move_right(maze, input.facing, delta_ms);
    }
    assert(player.rot_speed * delta_ms <= 65536 * 1000) by (nonlinear_arith)
        requires player.rot_speed <= 65536, delta_ms <= 1000;
    let turn: i32 = (player.rot_speed as u64 * delta_ms as u64 / 1000) as i32;
    if input.turn_left {
        player.rotate(-turn);
    }
    if input.turn_right {
        player.rotate(turn);
    }
}

/// Runs every sprite's animation clock.
fn update_sprites(sprites: &mut Vec<Sprite>, delta_ms: u32)
    requires
        forall|j: int| 0 <= j < old(sprites)@.len() ==> (#[trigger] old(sprites)@[j]).num_frames > 0,
    ensures
        final(sprites)@.len() == old(sprites)@.len(),
        forall|j: int| 0 <= j < final(sprites)@.len() ==> (#[trigger] final(sprites)@[j]).num_frames > 0,
{
    let mut i: usize = 0;
    while i < sprites.len()
        invariant
            i <= sprites@.len(),
            sprites@.len() == old(sprites)@.len(),
            forall|j: int| 0 <= j < sprites@.len() ==> (#[trigger] sprites@[j]).num_frames > 0,
        decreases sprites@.len() - i,
    {
        let mut sprite = sprites[i];
        sprite.update(delta_ms);
        sprites.set(i, sprite);
        i = i + 1;
    }
}

/// Ages every floating text and drops those whose time is up, keeping the order of the rest.
fn age_texts(texts: &mut Vec<FloatingText>, delta_ms: u32)
    requires
        delta_ms <= MAX_STEP_MS,
        forall|j: int| 0 <= j < old(texts)@.len() ==> text_ok(#[trigger] old(texts)@[j]),
    ensures
        final(texts)@.len() <= old(texts)@.len(),
        forall|j: int| 0 <= j < final(texts)@.len() ==> text_ok(#[trigger] final(texts)@[j]),
{
    let mut kept: Vec<FloatingText> = Vec::new();
    while texts.len() > 0
        invariant
            delta_ms <= MAX_STEP_MS,
            kept@.len() + texts@.len() <= old(texts)@.len(),
            forall|j: int| 0 <= j < texts@.len() ==> text_ok(#[trigger] texts@[j]),
            forall|j: int| 0 <= j < kept@.len() ==> text_ok(#[trigger] kept@[j]),
        decreases texts@.len(),
    {
        let mut t = texts.remove(0);
        assert(text_ok(t));
        t.update(delta_ms);
        if !t.is_expired() {
            kept.push(t);
        }
    }
    *texts = kept;
}

impl GameState {
    /// Collects every pill within 0.6 tiles of the player: a red one costs 15 health and
    /// brings on anxiety, a blue one restores 10; each leaves a floating text behind.
    fn collect_pills(&mut self)
        requires
            old(self).wf(),
        ensures
            final(self).wf(),
            final(self).maze == old(self).maze,
            final(self).player.pos == old(self).player.pos,
            final(self).state == old(self).state,
            final(self).game_timer == old(self).game_timer,
            final(self).idle_timer == old(self).idle_timer,
    {
        let radius: u64 = 6 * self.maze.tile_size as u64 / 10;
        let mut i: usize = 0;
        while i < self.pills.len()
            invariant
                self.wf(),
                self.maze == old(self).maze,
                self.player.pos == old(self).player.pos,
                self.state == old(self).state,
                self.game_timer == old(self).game_timer,
                self.idle_timer == old(self).idle_timer,
                radius <= PLAYER_MAX_COORD,
                i <= self.pills@.len(),
            decreases self.pills@.len() - i,
        {
            let mut pill = self.pills[i];
            if pill.can_collect(self.player.pos.x, self.player.pos.y, radius) {
                pill.collected = true;
                self.pills.set(i, pill);
                match pill.pill_type {
                    PillType::Red => {
                        self.player.take_damage(15);
                        self.effects.trigger_anxiety_effect();
                        self.floating_texts.push(FloatingText::new("-15 HP".to_owned(), pill.pos.x, pill.pos.y,
                            Rgba { r: 230, g: 41, b: 55, a: 255 }));
                    },
                    PillType::Blue => {
                        self.player.heal(10);
                        self.floating_texts.push(FloatingText::new("+10 HP".to_owned(), pill.pos.x, pill.pos.y,
                            Rgba { r: 102, g: 191, b: 255, a: 255 }));
                    },
                }
            }
            i = i + 1;
        }
    }
}

} // verus!
