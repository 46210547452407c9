use vstd::prelude::*;
use crate::player::{Player, ANGLE_TURN};

verus! {

/// Largest mouse sensitivity, in angle units per pixel per second.
pub const MAX_SENSITIVITY: u32 = 65536;

/// Largest mouse movement in one frame, in pixels.
pub const MAX_MOUSE_DELTA: i32 = 65536;

/// Turns the player by horizontal mouse movement.
pub struct Camera {
    /// Angle units turned per pixel of mouse movement per second of frame time.
    pub sensitivity: u32,
    pub last_mouse_pos: (i32, i32),
    pub is_first_frame: bool,
}

/// The turn for `delta_x` pixels of mouse movement over `delta_ms` milliseconds.
pub open spec fn mouse_turn(delta_x: int, sensitivity: int, delta_ms: int) -> int {
    delta_x * sensitivity * delta_ms / 1000
}

impl Camera {
    pub fn new(sensitivity: u32) -> (c: Camera)
        ensures
            c.sensitivity == sensitivity,
            c.last_mouse_pos == (0i32, 0i32),
            c.is_first_frame,
    {
        Camera { sensitivity, last_mouse_pos: (0, 0), is_first_frame: true }
    }

    /// On the first frame only records the mouse position. After that, turns the player by
    /// `mouse_turn` of the horizontal movement since the last frame, when there was any.
    pub fn update(&mut self, mouse_pos: (i32, i32), player: &mut Player, delta_ms: u32)
        requires
            old(player).angle < ANGLE_TURN,
            old(self).sensitivity <= MAX_SENSITIVITY,
            delta_ms <= 1000,
            -MAX_MOUSE_DELTA <= mouse_pos.0 - old(self).last_mouse_pos.0 <= MAX_MOUSE_DELTA,
        ensures
            final(self).last_mouse_pos == mouse_pos,
            !final(self).is_first_frame,
            final(self).sensitivity == old(self).sensitivity,
            final(player).angle < ANGLE_TURN,
            (old(self).is_first_frame || mouse_pos.0 == old(self).last_mouse_pos.0) ==> *final(player) == *old(player),
            !(old(self).is_first_frame || mouse_pos.0 == old(self).last_mouse_pos.0) ==> {
                let turn = mouse_turn(mouse_pos.0 - old(self).last_mouse_pos.0, old(self).sensitivity as int, delta_ms as int);
                &&& final(player).angle == (old(player).angle + turn) % (ANGLE_TURN as int)
                &&& *final(player) == (Player { angle: final(player).angle, ..*old(player) })
            },
    {
        if self.is_first_frame {
            self.last_mouse_pos = mouse_pos;
            self.is_first_frame = false;
            return;
        }
        let delta_x: i64 = mouse_pos.0 as i64 - self.last_mouse_pos.0 as i64;
        if delta_x != 0 {
            assert(-65536 * 65536 <= delta_x * self.sensitivity <= 65536 * 65536) by (nonlinear_arith)
                requires -65536 <= delta_x <= 65536, 0 <= self.sensitivity <= 65536;
            assert(-65536 * 65536 * 1000 <= (delta_x * self.sensitivity) * delta_ms <= 65536 * 65536 * 1000) by (nonlinear_arith)
                requires -65536 * 65536 <= delta_x * self.sensitivity <= 65536 * 65536, 0 <= delta_ms <= 1000;
            let prod: i64 = delta_x * self.sensitivity as i64 * delta_ms as i64;
            let turn: i64 = crate::caster::floor_div(prod, 1000);
            let k: i64 = crate::caster::floor_div(turn, ANGLE_TURN as i64);
            proof {
                vstd::arithmetic::div_mod::lemma_fundamental_div_mod(turn as int, ANGLE_TURN as int);
            }
            let reduced: i64 = turn - k * ANGLE_TURN as i64;
            assert(0 <= reduced < ANGLE_TURN);
            let ghost before = *player;
            player.rotate(reduced as i32);
            proof {
                let a = before.angle as int;
                let m = ANGLE_TURN as int;
                assert(a + turn == m * k + (a + reduced)) by (nonlinear_arith)
                    requires turn == m * k + reduced;
                vstd::arithmetic::div_mod::lemma_mod_multiples_vanish(k as int, a + reduced, m);
            }
        }
        self.last_mouse_pos = mouse_pos;
    }

    /// The next update only records the mouse position.
    pub fn reset(&mut self)
        ensures
            *final(self) == (Camera { is_first_frame: true, ..*old(self) }),
    {
        self.is_first_frame = true;
    }
}

} // verus!
