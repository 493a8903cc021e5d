//! Fixed-point plane geometry shared by all the games: coordinates in
//! quarter-pixel units, the axis-aligned hit test, and the screen wrap
//! that teleports an entity to the opposite edge of the field.

use vstd::prelude::*;

verus! {

/// Width of the playing field in quarter-pixel units (640 pixels).
pub const WINDOW_W: i32 = 2560;

/// Height of the playing field in quarter-pixel units (480 pixels).
pub const WINDOW_H: i32 = 1920;

/// The right edge of the field; the left edge is its negation.
pub const WIN_RIGHT: i32 = 1280;

/// The top edge of the field; the bottom edge is its negation.
pub const WIN_TOP: i32 = 960;

/// Every stored coordinate stays within this bound: wrapping, culling
/// and spawning keep positions well inside it, and all the arithmetic
/// below is overflow-free under it.
pub const COORD_LIMIT: i32 = 1800;

/// A point of the field, in quarter-pixel units.
#[derive(Clone, Copy, PartialEq, Eq, Structural, Debug)]
pub struct Vec2 {
    pub x: i32,
    pub y: i32,
}

/// The mathematical shadow of `Vec2`: unbounded integer coordinates.
pub ghost struct Vec2V {
    pub x: int,
    pub y: int,
}

impl View for Vec2 {
    type V = Vec2V;

    open spec fn view(&self) -> Vec2V {
        Vec2V { x: self.x as int, y: self.y as int }
    }
}

pub open spec fn coord_ok(c: int) -> bool {
    -(COORD_LIMIT as int) <= c <= COORD_LIMIT as int
}

pub open spec fn pos_ok(p: Vec2V) -> bool {
    coord_ok(p.x) && coord_ok(p.y)
}

/// A point strictly inside the axis-aligned square of half-width
/// `half` centred on `(cx, cy)`: the hit test every collision check
/// in the shooter uses.
pub open spec fn strictly_inside(px: int, py: int, cx: int, cy: int, half: int) -> bool {
    px > cx - half && px < cx + half && py < cy + half && py > cy - half
}

/// Run the hit test on concrete coordinates.
pub fn inside_box(px: i32, py: i32, cx: i32, cy: i32, half: i32) -> (r: bool)
    requires
        -2200 <= px <= 2200,
        -2200 <= py <= 2200,
        coord_ok(cx as int),
        coord_ok(cy as int),
        0 <= half <= 1000,
    ensures
        r == strictly_inside(px as int, py as int, cx as int, cy as int, half as int),
{
    px > cx - half && px < cx + half && py < cy + half && py > cy - half
}

/// One axis of the screen wrap. The probe point `c + off` (the tip of
/// the ship, or the rim of an asteroid) is tested against the edge at
/// `hi` and its mirror image at `-hi`; when it has crossed, the
/// coordinate is translated by the field's full extent `2 * hi` so the
/// entity reappears on the opposite side.
pub open spec fn wrapped_axis(c: int, off: int, hi: int) -> int {
    if c + off > hi {
        c - 2 * hi
    } else if c + off < -hi {
        c + 2 * hi
    } else {
        c
    }
}

pub fn wrap_axis(c: i32, off: i32, hi: i32) -> (r: i32)
    requires
        coord_ok(c as int),
        -200 <= off <= 200,
        960 <= hi <= 1280,
    ensures
        r == wrapped_axis(c as int, off as int, hi as int),
        -(hi + 200) <= r <= hi + 200,
{
    if c + off > hi {
        c - 2 * hi
    } else if c + off < -hi {
        c + 2 * hi
    } else {
        c
    }
}

/// The screen wrap applied to both axes of a position, with a probe
/// offset that may point in any direction.
pub open spec fn wrapped_pos(p: Vec2V, off: Vec2V) -> Vec2V {
    Vec2V { x: wrapped_axis(p.x, off.x, WIN_RIGHT as int), y: wrapped_axis(p.y, off.y, WIN_TOP as int) }
}

/// A position that has just been wrapped: at most one probe length
/// outside the field on either axis.
pub open spec fn wrapped_ok(p: Vec2V) -> bool {
    -1480 <= p.x <= 1480 && -1160 <= p.y <= 1160
}

pub fn wrap_position(p: &mut Vec2, off: Vec2)
    requires
        pos_ok(old(p)@),
        -200 <= off.x <= 200,
        -200 <= off.y <= 200,
    ensures
        final(p)@ == wrapped_pos(old(p)@, off@),
        wrapped_ok(final(p)@),
{
    p.x = wrap_axis(p.x, off.x, WIN_RIGHT);
    p.y = wrap_axis(p.y, off.y, WIN_TOP);
}

/// Where a drawn entity's wrapped twin stands on one axis: when the
/// drawing, reaching `reach` out from its centre, touches an edge,
/// a copy belongs one full field extent toward the other side, so
/// the entity is seen on both edges at once.
pub open spec fn drawn_twin(c: int, reach: int, hi: int) -> Option<int> {
    if c + reach >= hi {
        Option::Some(c - 2 * hi)
    } else if c - reach <= -hi {
        Option::Some(c + 2 * hi)
    } else {
        Option::None
    }
}

pub fn twin_axis(c: i32, reach: i32, hi: i32) -> (r: Option<i32>)
    requires
        coord_ok(c as int),
        0 <= reach <= 400,
        960 <= hi <= 1280,
    ensures
        match (r, drawn_twin(c as int, reach as int, hi as int)) {
            (Option::Some(t), Option::Some(s)) => t == s,
            (Option::None, Option::None) => true,
            _ => false,
        },
{
    if c + reach >= hi {
        Option::Some(c - 2 * hi)
    } else if c - reach <= -hi {
        Option::Some(c + 2 * hi)
    } else {
        Option::None
    }
}

/// A straight move of a position by one frame's displacement.
pub open spec fn moved_pos(p: Vec2V, d: Vec2V) -> Vec2V {
    Vec2V { x: p.x + d.x, y: p.y + d.y }
}

pub fn translate(p: &mut Vec2, d: Vec2)
    requires
        -1480 <= old(p)@.x <= 1480,
        -1480 <= old(p)@.y <= 1480,
        -320 <= d.x <= 320,
        -320 <= d.y <= 320,
    ensures
        final(p)@ == moved_pos(old(p)@, d@),
        pos_ok(final(p)@),
{
    p.x = p.x + d.x;
    p.y = p.y + d.y;
}

} // verus!
