//! The flocking toy: birds that drift by the sum of three steering
//! headings, wrap at the window, and re-aim by the change of their
//! bearing from the origin. Coordinates are milli-pixel units on a
//! 640-by-480 window; headings are tenths of a degree. The bearing
//! comes from a fixed-point arctangent built here.

use vstd::prelude::*;

verus! {

use vstd::arithmetic::div_mod::{lemma_div_pos_is_pos, lemma_multiply_divide_le};
use crate::geom::{Vec2, Vec2V};
use crate::trig::{angle_wf, sine_milli, cosine_milli, scaled_milli, sin_milli, cos_milli, scale_milli};

/// Drift contributed by each steering heading, milli-pixels per
/// frame.
pub const MOV_INC: i32 = 20;

/// The right window edge in milli-pixels; the left edge is its
/// negation.
pub const BIRD_RIGHT: i32 = 320000;

/// The top window edge in milli-pixels; the bottom is its negation.
pub const BIRD_TOP: i32 = 240000;

/// The radius within which another bird counts as nearby.
pub const BIRD_REGION_RADIUS: i32 = 90000;

/// The tighter radius the separation rule watches.
pub const BIRD_SEPARATION_RADIUS: i32 = 45000;

/// Octant arctangent: for `t` in [0, 1000] thousandths, a quadratic
/// approximation of `atan(t / 1000)` in tenth-degrees, exact at 0
/// and 1000.
pub open spec fn atan_octant_tdeg(t: int) -> int {
    (450000 * t + 156 * t * (1000 - t)) / 1000000
}

proof fn lemma_atan_octant_bounds(t: int)
    requires
        0 <= t <= 1000,
    ensures
        0 <= atan_octant_tdeg(t) <= 489,
{
    assert(0 <= t * (1000 - t) <= 250000) by (nonlinear_arith)
        requires 0 <= t <= 1000;
    assert(0 <= 156 * (t * (1000 - t)) <= 39000000) by (nonlinear_arith)
        requires 0 <= t * (1000 - t) <= 250000;
    assert(156 * t * (1000 - t) == 156 * (t * (1000 - t))) by (nonlinear_arith);
    let num = 450000 * t + 156 * t * (1000 - t);
    assert(0 <= num <= 489000000);
    lemma_div_pos_is_pos(num, 1000000);
    lemma_multiply_divide_le(num, 1000000, 489);
}

fn atan_octant(t: i32) -> (r: i32)
    requires
        0 <= t <= 1000,
    ensures
        r == atan_octant_tdeg(t as int),
        0 <= r <= 489,
{
    proof {
        lemma_atan_octant_bounds(t as int);
        assert(0 <= t * (1000 - t) <= 250000) by (nonlinear_arith)
            requires 0 <= t <= 1000;
        assert(156 * t * (1000 - t) == 156 * (t * (1000 - t))) by (nonlinear_arith);
    }
    let p: i32 = t * (1000 - t);
    let num: i32 = 450000 * t + 156 * p;
    num / 1000000
}

/// Full-plane arctangent in tenth-degrees, normalised to one turn:
/// the octant result unfolded by the operands' magnitudes and signs.
/// The origin maps to zero.
pub open spec fn atan2_tdeg_spec(y: int, x: int) -> int {
    if x == 0 && y == 0 {
        0
    } else {
        let ax = if x >= 0 { x } else { -x };
        let ay = if y >= 0 { y } else { -y };
        let base = if ax >= ay {
            atan_octant_tdeg((ay * 1000) / ax)
        } else {
            900 - atan_octant_tdeg((ax * 1000) / ay)
        };
        let q = if x >= 0 && y >= 0 {
            base
        } else if x < 0 && y >= 0 {
            1800 - base
        } else if x < 0 && y < 0 {
            1800 + base
        } else {
            3600 - base
        };
        q % 3600
    }
}

pub fn atan2_tdeg(y: i32, x: i32) -> (r: i32)
    requires
        -1000000 <= x <= 1000000,
        -1000000 <= y <= 1000000,
    ensures
        r == atan2_tdeg_spec(y as int, x as int),
        angle_wf(r as int),
{
    if x == 0 && y == 0 {
        return 0;
    }
    let ax: i32 = if x >= 0 { x } else { -x };
    let ay: i32 = if y >= 0 { y } else { -y };
    let base: i32 = if ax >= ay {
        proof {
            assert(ax > 0);
            lemma_div_pos_is_pos(ay as int * 1000, ax as int);
            lemma_multiply_divide_le(ay as int * 1000, ax as int, 1000);
            assert(ay as int * 1000 <= ax as int * 1000) by (nonlinear_arith)
                requires ay <= ax;
        }
        let t: i32 = ((ay as i64 * 1000) / (ax as i64)) as i32;
        atan_octant(t)
    } else {
        proof {
            assert(ay > 0);
            lemma_div_pos_is_pos(ax as int * 1000, ay as int);
            lemma_multiply_divide_le(ax as int * 1000, ay as int, 1000);
            assert(ax as int * 1000 <= ay as int * 1000) by (nonlinear_arith)
                requires ax <= ay;
        }
        let t: i32 = ((ax as i64 * 1000) / (ay as i64)) as i32;
        900 - atan_octant(t)
    };
    let q: i32 = if x >= 0 && y >= 0 {
        base
    } else if x < 0 && y >= 0 {
        1800 - base
    } else if x < 0 && y < 0 {
        1800 + base
    } else {
        3600 - base
    };
    if q >= 3600 {
        q - 3600
    } else {
        q
    }
}

/// A bird: its position, its drawn heading, and the three steering
/// headings the flocking rules feed it.
#[derive(Clone, Copy)]
pub struct Bird {
    xy: Vec2,
    angle: i32,
    sep_angle: i32,
    align_angle: i32,
    coh_angle: i32,
}

/// The mathematical shadow of a bird.
pub ghost struct BirdV {
    pub xy: Vec2V,
    pub angle: int,
    pub sep_angle: int,
    pub align_angle: int,
    pub coh_angle: int,
}

impl View for Bird {
    type V = BirdV;

    closed spec fn view(&self) -> BirdV {
        BirdV {
            xy: self.xy@,
            angle: self.angle as int,
            sep_angle: self.sep_angle as int,
            align_angle: self.align_angle as int,
            coh_angle: self.coh_angle as int,
        }
    }
}

/// A bird stays on the window and its headings stay normalised.
pub open spec fn bird_wf(b: BirdV) -> bool {
    &&& -320000 <= b.xy.x <= 320000
    &&& -240000 <= b.xy.y <= 240000
    &&& angle_wf(b.angle)
    &&& angle_wf(b.sep_angle)
    &&& angle_wf(b.align_angle)
    &&& angle_wf(b.coh_angle)
}

/// One axis of the bird's wrap: at or past an edge, the position is
/// translated by the window's full extent.
pub open spec fn bird_wrapped_axis(c: int, hi: int) -> int {
    if c >= hi {
        c - 2 * hi
    } else if c <= -hi {
        c + 2 * hi
    } else {
        c
    }
}

/// Where a bird lands before wrapping: the sum of the three steering
/// unit steps.
pub open spec fn bird_step_target(b: BirdV) -> Vec2V {
    Vec2V {
        x: b.xy.x - scaled_milli(20, sine_milli(b.sep_angle)) - scaled_milli(
            20,
            sine_milli(b.align_angle),
        ) - scaled_milli(20, sine_milli(b.coh_angle)),
        y: b.xy.y + scaled_milli(20, cosine_milli(b.sep_angle)) + scaled_milli(
            20,
            cosine_milli(b.align_angle),
        ) + scaled_milli(20, cosine_milli(b.coh_angle)),
    }
}

/// A bird after one frame: it re-aims by the change of its bearing
/// from the origin, moves to the target, and wraps at the window.
pub open spec fn stepped_bird(b: BirdV) -> BirdV {
    let n = bird_step_target(b);
    BirdV {
        xy: Vec2V {
            x: bird_wrapped_axis(n.x, 320000),
            y: bird_wrapped_axis(n.y, 240000),
        },
        angle: (atan2_tdeg_spec(n.y, n.x) - atan2_tdeg_spec(b.xy.y, b.xy.x)) % 3600,
        ..b
    }
}

impl Bird {
    /// A bird at `position`, aimed straight up, with every steering
    /// heading straight up as well.
    pub fn new(position: Vec2) -> (b: Bird)
        requires
            -320000 <= position.x <= 320000,
            -240000 <= position.y <= 240000,
        ensures
            b@ == (BirdV {
                xy: position@,
                angle: 900,
                sep_angle: 900,
                align_angle: 900,
                coh_angle: 900,
            }),
            bird_wf(b@),
    {
        let b = Bird {
            xy: position,
            angle: 900,
            sep_angle: 900,
            align_angle: 900,
            coh_angle: 900,
        };
        proof {
            assert(b@ =~= (BirdV {
                xy: position@,
                angle: 900,
                sep_angle: 900,
                align_angle: 900,
                coh_angle: 900,
            }));
        }
        b
    }

    /// The bird's drawn heading.
    pub fn angle(&self) -> (r: i32)
        ensures
            r == self@.angle,
    {
        self.angle
    }

    pub fn set_rotation(&mut self, new_rotation: i32)
        requires
            angle_wf(new_rotation as int),
        ensures
            final(self)@ == (BirdV { angle: new_rotation as int, ..old(self)@ }),
    {
        self.angle = new_rotation;
        proof {
            assert(final(self)@ =~= (BirdV { angle: new_rotation as int, ..old(self)@ }));
        }
    }

    pub fn set_separation(&mut self, new_rotation: i32)
        requires
            angle_wf(new_rotation as int),
        ensures
            final(self)@ == (BirdV { sep_angle: new_rotation as int, ..old(self)@ }),
    {
        self.sep_angle = new_rotation;
        proof {
            assert(final(self)@ =~= (BirdV { sep_angle: new_rotation as int, ..old(self)@ }));
        }
    }

    pub fn set_alignment(&mut self, new_rotation: i32)
        requires
            angle_wf(new_rotation as int),
        ensures
            final(self)@ == (BirdV { align_angle: new_rotation as int, ..old(self)@ }),
    {
        self.align_angle = new_rotation;
        proof {
            assert(final(self)@ =~= (BirdV { align_angle: new_rotation as int, ..old(self)@ }));
        }
    }

    pub fn set_cohesion(&mut self, new_rotation: i32)
        requires
            angle_wf(new_rotation as int),
        ensures
            final(self)@ == (BirdV { coh_angle: new_rotation as int, ..old(self)@ }),
    {
        self.coh_angle = new_rotation;
        proof {
            assert(final(self)@ =~= (BirdV { coh_angle: new_rotation as int, ..old(self)@ }));
        }
    }

    /// The radius within which this bird sees a neighbour.
    pub fn radius(&self) -> (r: i32)
        ensures
            r == BIRD_REGION_RADIUS,
    {
        BIRD_REGION_RADIUS
    }

    /// The tighter radius the separation rule watches.
    pub fn separation_radius(&self) -> (r: i32)
        ensures
            r == BIRD_SEPARATION_RADIUS,
    {
        BIRD_SEPARATION_RADIUS
    }

    /// The bird's position.
    pub fn position(&self) -> (p: Vec2)
        ensures
            p@ == self@.xy,
    {
        self.xy
    }

    /// One frame of flight: re-aim, drift by the steering steps,
    /// wrap at the window.
    pub fn update(&mut self)
        requires
            bird_wf(old(self)@),
        ensures
            final(self)@ == stepped_bird(old(self)@),
            bird_wf(final(self)@),
    {
        let sep_x = -scale_milli(MOV_INC, sin_milli(self.sep_angle));
        let sep_y = scale_milli(MOV_INC, cos_milli(self.sep_angle));
        let align_x = -scale_milli(MOV_INC, sin_milli(self.align_angle));
        let align_y = scale_milli(MOV_INC, cos_milli(self.align_angle));
        let coh_x = -scale_milli(MOV_INC, sin_milli(self.coh_angle));
        let coh_y = scale_milli(MOV_INC, cos_milli(self.coh_angle));
        let new_x = self.xy.x + sep_x + align_x + coh_x;
        let new_y = self.xy.y + sep_y + align_y + coh_y;
        let bearing_new = atan2_tdeg(new_y, new_x);
        let bearing_old = atan2_tdeg(self.xy.y, self.xy.x);
        let diff = bearing_new - bearing_old;
        self.angle = if diff < 0 {
            diff + 3600
        } else {
            diff
        };
        self.xy.x = if new_x >= BIRD_RIGHT {
            new_x - 2 * BIRD_RIGHT
        } else if new_x <= -BIRD_RIGHT {
            new_x + 2 * BIRD_RIGHT
        } else {
            new_x
        };
        self.xy.y = if new_y >= BIRD_TOP {
            new_y - 2 * BIRD_TOP
        } else if new_y <= -BIRD_TOP {
            new_y + 2 * BIRD_TOP
        } else {
            new_y
        };
        proof {
            assert(final(self)@ =~= stepped_bird(old(self)@));
        }
    }
}

/// The view of a whole flock vector.
pub open spec fn birds_v(bs: Seq<Bird>) -> Seq<BirdV> {
    bs.map_values(|b: Bird| b@)
}

/// Another bird is nearby when the squared distance between the two
/// is at most the squared watch radius.
pub open spec fn birds_nearby(b: BirdV, o: BirdV) -> bool {
    (o.xy.x - b.xy.x) * (o.xy.x - b.xy.x) + (o.xy.y - b.xy.y) * (o.xy.y - b.xy.y)
        <= 8100000000
}

pub fn is_bird_nearby(bird: &Bird, other_bird: &Bird) -> (r: bool)
    requires
        bird_wf(bird@),
        bird_wf(other_bird@),
    ensures
        r == birds_nearby(bird@, other_bird@),
{
    let dx: i64 = other_bird.position().x as i64 - bird.position().x as i64;
    let dy: i64 = other_bird.position().y as i64 - bird.position().y as i64;
    proof {
        assert(dx * dx <= 640000000000 && dy * dy <= 640000000000
            && dx * dx >= 0 && dy * dy >= 0) by (nonlinear_arith)
            requires -800000 <= dx <= 800000 && -800000 <= dy <= 800000;
    }
    dx * dx + dy * dy <= 8100000000
}

/// The birds among the first `n` of a flock, other than the one at
/// index `skip`, that are near bird `skip`: the neighbour list the
/// flocking rules read, in flock order.
pub open spec fn nearby_prefix(bs: Seq<BirdV>, skip: int, n: int) -> Seq<BirdV>
    decreases n,
{
    if n <= 0 {
        Seq::empty()
    } else {
        nearby_prefix(bs, skip, n - 1) + if n - 1 != skip && birds_nearby(bs[skip], bs[n - 1]) {
            seq![bs[n - 1]]
        } else {
            Seq::empty()
        }
    }
}

/// Collect the neighbours of the bird at index `i`.
pub fn nearby_birds(birds: &Vec<Bird>, i: usize) -> (nearby: Vec<Bird>)
    requires
        i < birds@.len(),
        forall|k: int| 0 <= k < birds@.len() ==> bird_wf((#[trigger] birds@[k])@),
    ensures
        birds_v(nearby@) == nearby_prefix(birds_v(birds@), i as int, birds@.len() as int),
        forall|k: int| 0 <= k < nearby@.len() ==> bird_wf((#[trigger] nearby@[k])@),
{
    let mut nearby: Vec<Bird> = Vec::new();
    let mut j: usize = 0;
    while j < birds.len()
        invariant
            i < birds@.len(),
            j <= birds@.len(),
            forall|k: int| 0 <= k < birds@.len() ==> bird_wf((#[trigger] birds@[k])@),
            birds_v(nearby@) =~= nearby_prefix(birds_v(birds@), i as int, j as int),
            forall|k: int| 0 <= k < nearby@.len() ==> bird_wf((#[trigger] nearby@[k])@),
        decreases birds@.len() - j,
    {
        if j != i {
            if is_bird_nearby(&birds[i], &birds[j]) {
                nearby.push(birds[j]);
            }
        }
        proof {
            assert(birds_v(nearby@) =~= nearby_prefix(birds_v(birds@), i as int, j as int + 1));
        }
        j = j + 1;
    }
    nearby
}

/// The sum of the x coordinates of a flock.
pub open spec fn sum_x(bs: Seq<BirdV>) -> int
    decreases bs.len(),
{
    if bs.len() == 0 {
        0
    } else {
        sum_x(bs.drop_last()) + bs.last().xy.x
    }
}

/// The sum of the y coordinates of a flock.
pub open spec fn sum_y(bs: Seq<BirdV>) -> int
    decreases bs.len(),
{
    if bs.len() == 0 {
        0
    } else {
        sum_y(bs.drop_last()) + bs.last().xy.y
    }
}

/// The sum of the drawn headings of a flock.
pub open spec fn sum_angle(bs: Seq<BirdV>) -> int
    decreases bs.len(),
{
    if bs.len() == 0 {
        0
    } else {
        sum_angle(bs.drop_last()) + bs.last().angle
    }
}

/// Integer division rounded toward zero, the rounding the averages
/// below use.
pub open spec fn tdiv(a: int, b: int) -> int {
    if a >= 0 {
        a / b
    } else {
        -((-a) / b)
    }
}

proof fn lemma_sum_x_bounds(bs: Seq<BirdV>)
    requires
        forall|k: int| 0 <= k < bs.len() ==> bird_wf(#[trigger] bs[k]),
    ensures
        -320000 * bs.len() <= sum_x(bs) <= 320000 * bs.len(),
        -240000 * bs.len() <= sum_y(bs) <= 240000 * bs.len(),
        0 <= sum_angle(bs) <= 3599 * bs.len(),
    decreases bs.len(),
{
    if bs.len() > 0 {
        lemma_sum_x_bounds(bs.drop_last());
        assert(bird_wf(bs[bs.len() - 1]));
    }
}

proof fn lemma_take_sum_step(bs: Seq<BirdV>, j: int)
    requires
        0 <= j < bs.len(),
    ensures
        sum_x(bs.take(j + 1)) == sum_x(bs.take(j)) + bs[j].xy.x,
        sum_y(bs.take(j + 1)) == sum_y(bs.take(j)) + bs[j].xy.y,
        sum_angle(bs.take(j + 1)) == sum_angle(bs.take(j)) + bs[j].angle,
{
    assert(bs.take(j + 1).drop_last() =~= bs.take(j));
    assert(bs.take(j + 1).last() == bs[j]);
}

/// The mean position of a flock, coordinates rounded toward zero.
pub fn flock_center(other_birds: &Vec<Bird>) -> (c: Vec2)
    requires
        1 <= other_birds@.len() <= 1000000,
        forall|k: int| 0 <= k < other_birds@.len() ==> bird_wf((#[trigger] other_birds@[k])@),
    ensures
        c@.x == tdiv(sum_x(birds_v(other_birds@)), other_birds@.len() as int),
        c@.y == tdiv(sum_y(birds_v(other_birds@)), other_birds@.len() as int),
        -320000 <= c@.x <= 320000,
        -240000 <= c@.y <= 240000,
{
    let ghost bs = birds_v(other_birds@);
    let mut sx: i64 = 0;
    let mut sy: i64 = 0;
    let mut j: usize = 0;
    while j < other_birds.len()
        invariant
            j <= other_birds@.len(),
            other_birds@.len() <= 1000000,
            bs == birds_v(other_birds@),
            forall|k: int| 0 <= k < other_birds@.len() ==> bird_wf((#[trigger] other_birds@[k])@),
            sx == sum_x(bs.take(j as int)),
            sy == sum_y(bs.take(j as int)),
            -320000 * (j as int) <= sx <= 320000 * (j as int),
            -240000 * (j as int) <= sy <= 240000 * (j as int),
        decreases other_birds@.len() - j,
    {
        proof {
            lemma_take_sum_step(bs, j as int);
            assert(bs[j as int] == other_birds@[j as int]@);
            assert(bird_wf(bs[j as int]));
            assert(320000 * (j as int) + 320000 == 320000 * (j as int + 1)) by (nonlinear_arith);
            assert(240000 * (j as int) + 240000 == 240000 * (j as int + 1)) by (nonlinear_arith);
            assert(320000 * (j as int + 1) <= 320000000000int) by (nonlinear_arith)
                requires j as int + 1 <= 1000000;
            assert(240000 * (j as int + 1) <= 240000000000int) by (nonlinear_arith)
                requires j as int + 1 <= 1000000;
        }
        sx = sx + other_birds[j].position().x as i64;
        sy = sy + other_birds[j].position().y as i64;
        j = j + 1;
    }
    proof {
        assert(bs.take(bs.len() as int) =~= bs);
        lemma_sum_x_bounds(bs);
    }
    let n: i64 = other_birds.len() as i64;
    let cx: i64 = if sx >= 0 {
        sx / n
    } else {
        -((-sx) / n)
    };
    let cy: i64 = if sy >= 0 {
        sy / n
    } else {
        -((-sy) / n)
    };
    proof {
        lemma_div_pos_is_pos(if sx >= 0 { sx as int } else { -sx as int }, n as int);
        lemma_div_pos_is_pos(if sy >= 0 { sy as int } else { -sy as int }, n as int);
        lemma_multiply_divide_le(if sx >= 0 { sx as int } else { -sx as int }, n as int, 320000);
        lemma_multiply_divide_le(if sy >= 0 { sy as int } else { -sy as int }, n as int, 240000);
        assert(320000 * (bs.len() as int) == (bs.len() as int) * 320000) by (nonlinear_arith);
        assert(240000 * (bs.len() as int) == (bs.len() as int) * 240000) by (nonlinear_arith);
    }
    Vec2 { x: cx as i32, y: cy as i32 }
}

/// The separation heading: straight away from the neighbours' mean
/// position, as the bearing of the mean turned by half a turn.
pub fn separation(other_birds: &Vec<Bird>) -> (a: i32)
    requires
        1 <= other_birds@.len() <= 1000000,
        forall|k: int| 0 <= k < other_birds@.len() ==> bird_wf((#[trigger] other_birds@[k])@),
    ensures
        a as int == (atan2_tdeg_spec(
            tdiv(sum_y(birds_v(other_birds@)), other_birds@.len() as int),
            tdiv(sum_x(birds_v(other_birds@)), other_birds@.len() as int),
        ) + 1800) % 3600,
        angle_wf(a as int),
{
    let c = flock_center(other_birds);
    let bearing = atan2_tdeg(c.y, c.x);
    if bearing >= 1800 {
        bearing - 1800
    } else {
        bearing + 1800
    }
}

/// The cohesion heading: straight toward the neighbours' mean
/// position, as the bearing of the mean.
pub fn cohesion(other_birds: &Vec<Bird>) -> (a: i32)
    requires
        1 <= other_birds@.len() <= 1000000,
        forall|k: int| 0 <= k < other_birds@.len() ==> bird_wf((#[trigger] other_birds@[k])@),
    ensures
        a as int == atan2_tdeg_spec(
            tdiv(sum_y(birds_v(other_birds@)), other_birds@.len() as int),
            tdiv(sum_x(birds_v(other_birds@)), other_birds@.len() as int),
        ),
        angle_wf(a as int),
{
    let c = flock_center(other_birds);
    atan2_tdeg(c.y, c.x)
}

/// The alignment heading: the mean of the neighbours' drawn
/// headings.
pub fn alignment(other_birds: &Vec<Bird>) -> (a: i32)
    requires
        1 <= other_birds@.len() <= 1000000,
        forall|k: int| 0 <= k < other_birds@.len() ==> bird_wf((#[trigger] other_birds@[k])@),
    ensures
        a as int == sum_angle(birds_v(other_birds@)) / (other_birds@.len() as int),
        angle_wf(a as int),
{
    let ghost bs = birds_v(other_birds@);
    let mut sa: i64 = 0;
    let mut j: usize = 0;
    while j < other_birds.len()
        invariant
            j <= other_birds@.len(),
            other_birds@.len() <= 1000000,
            bs == birds_v(other_birds@),
            forall|k: int| 0 <= k < other_birds@.len() ==> bird_wf((#[trigger] other_birds@[k])@),
            sa == sum_angle(bs.take(j as int)),
            0 <= sa <= 3599 * (j as int),
        decreases other_birds@.len() - j,
    {
        proof {
            lemma_take_sum_step(bs, j as int);
            assert(bs[j as int] == other_birds@[j as int]@);
            assert(bird_wf(bs[j as int]));
            assert(3599 * (j as int) + 3599 == 3599 * (j as int + 1)) by (nonlinear_arith);
            assert(3599 * (j as int + 1) <= 3599000000int) by (nonlinear_arith)
                requires j as int + 1 <= 1000000;
        }
        sa = sa + other_birds[j].angle() as i64;
        j = j + 1;
    }
    proof {
        assert(bs.take(bs.len() as int) =~= bs);
        lemma_sum_x_bounds(bs);
    }
    let n: i64 = other_birds.len() as i64;
    proof {
        lemma_div_pos_is_pos(sa as int, n as int);
        assert(3599 * (n as int) < (n as int) * 3600) by (nonlinear_arith)
            requires 1 <= n;
        vstd::arithmetic::div_mod::lemma_multiply_divide_lt(sa as int, n as int, 3600);
    }
    let a: i64 = sa / n;
    a as i32
}

/// Fly the whole flock one frame forward.
pub fn flock_step(birds: &mut Vec<Bird>)
    requires
        forall|k: int| 0 <= k < old(birds)@.len() ==> bird_wf((#[trigger] old(birds)@[k])@),
    ensures
        final(birds)@.len() == old(birds)@.len(),
        forall|k: int| 0 <= k < old(birds)@.len() ==>
            (#[trigger] final(birds)@[k])@ == stepped_bird(old(birds)@[k]@),
        forall|k: int| 0 <= k < final(birds)@.len() ==> bird_wf((#[trigger] final(birds)@[k])@),
{
    let ghost bs0 = birds@;
    let mut i: usize = 0;
    while i < birds.len()
        invariant
            i <= bs0.len(),
            birds@.len() == bs0.len(),
            forall|k: int| 0 <= k < bs0.len() ==> bird_wf((#[trigger] bs0[k])@),
            forall|k: int| i <= k < bs0.len() ==> birds@[k] == bs0[k],
            forall|k: int| 0 <= k < i ==> (#[trigger] birds@[k])@ == stepped_bird(bs0[k]@),
            forall|k: int| 0 <= k < i ==> bird_wf((#[trigger] birds@[k])@),
        decreases bs0.len() - i,
    {
        proof {
            assert(birds@[i as int] == bs0[i as int]);
        }
        let mut b = birds[i];
        b.update();
        birds[i] = b;
        i = i + 1;
    }
}

} // verus!
