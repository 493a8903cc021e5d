//! The breakout prototype's logic: a paddle driven by held keys, a
//! ball on fixed diagonals, and the bounce rules at the paddle line,
//! the side walls and the roof. Coordinates are half-pixel units on
//! a 640-by-480 window, so every constant of the layout is an
//! integer.

use vstd::prelude::*;

verus! {

use crate::geom::{Vec2, Vec2V};
use crate::events::{InputEvent, KeyInput};

/// Paddle width and height, half-pixels.
pub const PLAYER_W: i32 = 160;

/// Paddle height, half-pixels.
pub const PLAYER_H: i32 = 50;

/// Paddle speed per frame while a key is held.
pub const PLAYER_SPEED: i32 = 10;

/// Side of the square ball.
pub const BALL_SIZE: i32 = 20;

/// Ball speed per frame on each axis.
pub const BALL_SPEED: i32 = 3;

/// The right wall; the left wall is its negation.
pub const BK_RIGHT: i32 = 640;

/// The roof; the floor (the paddle line's window edge) is its
/// negation.
pub const BK_TOP: i32 = 480;

/// Coordinates saturate at this bound, far beyond any reachable
/// play, so a frame always leaves the state fit for the next frame.
pub const BK_LIMIT: i32 = 1000000000;

/// The paddle game's whole state.
pub struct Breakout {
    pub player_pos: i32,
    pub ball_pos: Vec2,
    pub score: u32,
    pub key_press: KeyInput,
    pub key_pressed: bool,
    pub ball_dir_x: i32,
    pub ball_dir_y: i32,
}

/// The mathematical shadow of the paddle game.
pub ghost struct BreakoutV {
    pub player_pos: int,
    pub ball_pos: Vec2V,
    pub score: int,
    pub key_press: KeyInput,
    pub key_pressed: bool,
    pub ball_dir_x: int,
    pub ball_dir_y: int,
}

impl View for Breakout {
    type V = BreakoutV;

    open spec fn view(&self) -> BreakoutV {
        BreakoutV {
            player_pos: self.player_pos as int,
            ball_pos: self.ball_pos@,
            score: self.score as int,
            key_press: self.key_press,
            key_pressed: self.key_pressed,
            ball_dir_x: self.ball_dir_x as int,
            ball_dir_y: self.ball_dir_y as int,
        }
    }
}

/// The directions are unit signs and the coordinates are far from
/// the machine limits.
pub open spec fn breakout_wf(b: BreakoutV) -> bool {
    &&& (b.ball_dir_x == 1 || b.ball_dir_x == -1)
    &&& (b.ball_dir_y == 1 || b.ball_dir_y == -1)
    &&& -1000000000 <= b.player_pos <= 1000000000
    &&& -1000000000 <= b.ball_pos.x <= 1000000000
    &&& -1000000000 <= b.ball_pos.y <= 1000000000
}

/// The opening state: ball and paddle centred, the ball falling to
/// the lower right.
pub fn new_breakout() -> (b: Breakout)
    ensures
        b@ == (BreakoutV {
            player_pos: 0,
            ball_pos: Vec2V { x: 0, y: 0 },
            score: 0,
            key_press: KeyInput::Up,
            key_pressed: false,
            ball_dir_x: 1,
            ball_dir_y: -1,
        }),
        breakout_wf(b@),
{
    let b = Breakout {
        player_pos: 0,
        ball_pos: Vec2 { x: 0, y: 0 },
        score: 0,
        key_press: KeyInput::Up,
        key_pressed: false,
        ball_dir_x: 1,
        ball_dir_y: -1,
    };
    proof {
        assert(b@ =~= (BreakoutV {
            player_pos: 0,
            ball_pos: Vec2V { x: 0, y: 0 },
            score: 0,
            key_press: KeyInput::Up,
            key_pressed: false,
            ball_dir_x: 1,
            ball_dir_y: -1,
        }));
    }
    b
}

/// A key going down is latched once: a repeat of the latched key is
/// ignored.
pub open spec fn key_pressed_state(b: BreakoutV, key: KeyInput) -> BreakoutV {
    if key != b.key_press {
        BreakoutV { key_pressed: true, key_press: key, ..b }
    } else {
        b
    }
}

pub fn handle_keypress(key: KeyInput, model: &mut Breakout)
    ensures
        final(model)@ == key_pressed_state(old(model)@, key),
{
    if key != model.key_press {
        model.key_pressed = true;
        model.key_press = key;
    }
    proof {
        assert(final(model)@ =~= key_pressed_state(old(model)@, key));
    }
}

/// Releasing the latched key clears it back to the resting `Up`;
/// releasing any other key does nothing.
pub open spec fn key_released_state(b: BreakoutV, key: KeyInput) -> BreakoutV {
    if key == b.key_press {
        BreakoutV { key_pressed: false, key_press: KeyInput::Up, ..b }
    } else {
        b
    }
}

pub fn handle_keyrelease(key: KeyInput, model: &mut Breakout)
    ensures
        final(model)@ == key_released_state(old(model)@, key),
{
    if key == model.key_press {
        model.key_pressed = false;
        model.key_press = KeyInput::Up;
    }
    proof {
        assert(final(model)@ =~= key_released_state(old(model)@, key));
    }
}

/// The paddle game's reaction to one raw input event.
pub open spec fn breakout_evented(b: BreakoutV, e: InputEvent) -> BreakoutV {
    match e {
        InputEvent::Pressed(key) => key_pressed_state(b, key),
        InputEvent::Released(key) => key_released_state(b, key),
    }
}

pub fn window_event(model: &mut Breakout, event: InputEvent)
    ensures
        final(model)@ == breakout_evented(old(model)@, event),
{
    match event {
        InputEvent::Pressed(key) => handle_keypress(key, model),
        InputEvent::Released(key) => handle_keyrelease(key, model),
    }
}

/// A coordinate held at the limit of the playable range.
pub open spec fn bk_clamped(c: int) -> int {
    if c > 1000000000 {
        1000000000
    } else if c < -1000000000 {
        -1000000000
    } else {
        c
    }
}

/// One frame of the paddle game. The ball advances on both axes;
/// the paddle follows the held key; then, in order, the ball may
/// bounce off the paddle line, the side walls and the roof. Every
/// moved coordinate saturates at the coordinate limit.
pub open spec fn stepped_breakout(b: BreakoutV) -> BreakoutV {
    let bx = bk_clamped(b.ball_pos.x + 3 * b.ball_dir_x);
    let by = bk_clamped(b.ball_pos.y + 3 * b.ball_dir_y);
    let pp = if b.key_pressed && b.key_press == KeyInput::Left {
        bk_clamped(b.player_pos - 10)
    } else if b.key_pressed && b.key_press == KeyInput::Right {
        bk_clamped(b.player_pos + 10)
    } else {
        b.player_pos
    };
    let dy1 = if by <= -480 + 50 - 10 && bx <= pp + 80 && bx >= pp - 80 {
        -b.ball_dir_y
    } else {
        b.ball_dir_y
    };
    let dx1 = if bx >= 640 || bx <= -640 {
        -b.ball_dir_x
    } else {
        b.ball_dir_x
    };
    let dy2 = if by >= 480 {
        -dy1
    } else {
        dy1
    };
    BreakoutV {
        player_pos: pp,
        ball_pos: Vec2V { x: bx, y: by },
        ball_dir_x: dx1,
        ball_dir_y: dy2,
        ..b
    }
}

/// Hold a stepped coordinate inside the playable range.
fn clamp_coord(c: i32) -> (r: i32)
    ensures
        r == bk_clamped(c as int),
        -1000000000 <= r <= 1000000000,
{
    if c > BK_LIMIT {
        BK_LIMIT
    } else if c < -BK_LIMIT {
        -BK_LIMIT
    } else {
        c
    }
}

pub fn update(model: &mut Breakout)
    requires
        breakout_wf(old(model)@),
    ensures
        final(model)@ == stepped_breakout(old(model)@),
        breakout_wf(final(model)@),
{
    model.ball_pos.x = clamp_coord(model.ball_pos.x + BALL_SPEED * model.ball_dir_x);
    model.ball_pos.y = clamp_coord(model.ball_pos.y + BALL_SPEED * model.ball_dir_y);
    if model.key_pressed {
        if model.key_press == KeyInput::Left {
            model.player_pos = clamp_coord(model.player_pos - PLAYER_SPEED);
        } else if model.key_press == KeyInput::Right {
            model.player_pos = clamp_coord(model.player_pos + PLAYER_SPEED);
        }
    }
    if model.ball_pos.y <= -BK_TOP + PLAYER_H - 10 {
        if model.ball_pos.x <= model.player_pos + PLAYER_W / 2 {
            if model.ball_pos.x >= model.player_pos - PLAYER_W / 2 {
                model.ball_dir_y = -model.ball_dir_y;
            }
        }
    }
    if model.ball_pos.x >= BK_RIGHT || model.ball_pos.x <= -BK_RIGHT {
        model.ball_dir_x = -model.ball_dir_x;
    }
    if model.ball_pos.y >= BK_TOP {
        model.ball_dir_y = -model.ball_dir_y;
    }
    proof {
        assert(final(model)@ =~= stepped_breakout(old(model)@));
    }
}

} // verus!
