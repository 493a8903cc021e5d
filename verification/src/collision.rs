//! The shooter's collision rules: a missile against the field's edge,
//! missiles against an asteroid's bounding box (with scoring and
//! fragmentation), and the ship's three probe points against every
//! asteroid.

use vstd::prelude::*;

verus! {

use crate::geom::{Vec2, Vec2V, strictly_inside, inside_box, WIN_RIGHT, WIN_TOP};
use crate::trig::{turned, sine_milli, cosine_milli, scaled_milli, QUARTER_TURN, add_angle, sin_milli, cos_milli, scale_milli};
use crate::entities::{
    Projectile, ProjectileV, Asteroid, AsteroidV, Player, PlayerV,
    projectile_wf, asteroid_wf, player_wf,
    SPACESHIP_PEAK, SPACESHIP_TROUGH, SPACESHIP_WIDTH,
};
use crate::spawn::{asteroids_v, generate_asteroid};

/// The view of a whole missile vector.
pub open spec fn missiles_v(ms: Seq<Projectile>) -> Seq<ProjectileV> {
    ms.map_values(|m: Projectile| m@)
}

/// A missile's probe corner — its centre shifted by half its size —
/// lies strictly inside the asteroid's bounding box.
pub open spec fn missile_hits(m: ProjectileV, a: AsteroidV) -> bool {
    strictly_inside(m.position.x + 8, m.position.y + 8, a.position.x, a.position.y, a.size / 2)
}

/// Some missile of the volley overlaps asteroid `a`.
pub open spec fn any_hit(ms: Seq<ProjectileV>, a: AsteroidV) -> bool {
    exists|i: int| 0 <= i < ms.len() && missile_hits(ms[i], a)
}

/// How many missiles of the volley overlap asteroid `a`.
pub open spec fn hit_count(ms: Seq<ProjectileV>, a: AsteroidV) -> int
    decreases ms.len(),
{
    if ms.len() == 0 {
        0
    } else {
        hit_count(ms.drop_last(), a) + if missile_hits(ms.last(), a) { 1int } else { 0int }
    }
}

pub proof fn lemma_hit_count_bounds(ms: Seq<ProjectileV>, a: AsteroidV)
    ensures
        0 <= hit_count(ms, a) <= ms.len(),
    decreases ms.len(),
{
    if ms.len() > 0 {
        lemma_hit_count_bounds(ms.drop_last(), a);
    }
}

pub proof fn lemma_hit_count_take_step(ms: Seq<ProjectileV>, a: AsteroidV, i: int)
    requires
        0 <= i < ms.len(),
    ensures
        hit_count(ms.take(i + 1), a)
            == hit_count(ms.take(i), a) + if missile_hits(ms[i], a) { 1int } else { 0int },
{
    assert(ms.take(i + 1).drop_last() =~= ms.take(i));
    assert(ms.take(i + 1).last() == ms[i]);
}

/// A missile to be culled: it has left the field or already struck.
pub open spec fn missile_out(m: ProjectileV) -> bool {
    m.position.x > WIN_RIGHT || m.position.x < -WIN_RIGHT
        || m.position.y > WIN_TOP || m.position.y < -WIN_TOP
        || m.hit
}

pub fn has_missile_hit_edge(missile: &Projectile) -> (r: bool)
    ensures
        r == missile_out(missile@),
{
    let mut has_hit = false;
    if missile.position.x > WIN_RIGHT {
        has_hit = true;
    } else if missile.position.x < -WIN_RIGHT {
        has_hit = true;
    } else if missile.position.y > WIN_TOP {
        has_hit = true;
    } else if missile.position.y < -WIN_TOP {
        has_hit = true;
    }
    if missile.hit {
        has_hit = true;
    }
    has_hit
}

/// A probe point lies strictly inside an asteroid's bounding box.
pub open spec fn point_in_asteroid(q: Vec2V, a: AsteroidV) -> bool {
    strictly_inside(q.x, q.y, a.position.x, a.position.y, a.size / 2)
}

/// The tip of the ship's nose, one peak length ahead of its centre
/// along its facing (the stored rotation plus a quarter turn).
pub open spec fn ship_nose(p: PlayerV) -> Vec2V {
    let tr = turned(p.rotation, 900);
    Vec2V {
        x: p.position.x + scaled_milli(65, cosine_milli(tr)),
        y: p.position.y + scaled_milli(65, sine_milli(tr)),
    }
}

/// The ship's left tail corner: half a width out along the facing's
/// cosine, a peak-plus-trough length back along its sine.
pub open spec fn ship_left_tail(p: PlayerV) -> Vec2V {
    let tr = turned(p.rotation, 900);
    Vec2V {
        x: p.position.x - scaled_milli(60, cosine_milli(tr)),
        y: p.position.y - scaled_milli(91, sine_milli(tr)),
    }
}

/// The ship's right tail corner, mirror of the left one.
pub open spec fn ship_right_tail(p: PlayerV) -> Vec2V {
    let tr = turned(p.rotation, 900);
    Vec2V {
        x: p.position.x + scaled_milli(60, cosine_milli(tr)),
        y: p.position.y - scaled_milli(91, sine_milli(tr)),
    }
}

/// One of the ship's three probe points lies inside asteroid `a`.
pub open spec fn ship_hits_asteroid(p: PlayerV, a: AsteroidV) -> bool {
    point_in_asteroid(ship_nose(p), a)
        || point_in_asteroid(ship_left_tail(p), a)
        || point_in_asteroid(ship_right_tail(p), a)
}

/// The ship overlaps some asteroid of the field.
pub open spec fn ship_crashed(p: PlayerV, asts: Seq<AsteroidV>) -> bool {
    exists|i: int| 0 <= i < asts.len() && ship_hits_asteroid(p, asts[i])
}

pub fn has_ship_hit_asteroid(player: &Player, asteroids: &Vec<Asteroid>) -> (r: bool)
    requires
        player_wf(player@),
        forall|i: int| 0 <= i < asteroids@.len() ==> asteroid_wf(#[trigger] asteroids@[i]@),
    ensures
        r == ship_crashed(player@, asteroids_v(asteroids@)),
{
    let tr = add_angle(player.rotation, QUARTER_TURN);
    let c = cos_milli(tr);
    let s = sin_milli(tr);
    let nose_x = player.position.x + scale_milli(SPACESHIP_PEAK, c);
    let nose_y = player.position.y + scale_milli(SPACESHIP_PEAK, s);
    let tail_dx = scale_milli(SPACESHIP_WIDTH / 2, c);
    let tail_dy = scale_milli(SPACESHIP_PEAK + SPACESHIP_TROUGH, s);
    let l_tail_x = player.position.x - tail_dx;
    let r_tail_x = player.position.x + tail_dx;
    let tail_y = player.position.y - tail_dy;
    proof {
        assert(ship_nose(player@) == (Vec2V { x: nose_x as int, y: nose_y as int }));
        assert(ship_left_tail(player@) == (Vec2V { x: l_tail_x as int, y: tail_y as int }));
        assert(ship_right_tail(player@) == (Vec2V { x: r_tail_x as int, y: tail_y as int }));
    }
    let mut has_hit = false;
    let mut i: usize = 0;
    while i < asteroids.len()
        invariant
            i <= asteroids@.len(),
            forall|k: int| 0 <= k < asteroids@.len() ==> asteroid_wf(#[trigger] asteroids@[k]@),
            ship_nose(player@) == (Vec2V { x: nose_x as int, y: nose_y as int }),
            ship_left_tail(player@) == (Vec2V { x: l_tail_x as int, y: tail_y as int }),
            ship_right_tail(player@) == (Vec2V { x: r_tail_x as int, y: tail_y as int }),
            -2200 <= nose_x <= 2200,
            -2200 <= nose_y <= 2200,
            -2200 <= l_tail_x <= 2200,
            -2200 <= r_tail_x <= 2200,
            -2200 <= tail_y <= 2200,
            has_hit <==> exists|k: int| 0 <= k < i && ship_hits_asteroid(player@, #[trigger] asteroids@[k]@),
        decreases asteroids@.len() - i,
    {
        proof {
            assert(asteroid_wf(asteroids@[i as int]@));
        }
        let ghost prior = has_hit;
        let a = &asteroids[i];
        let half = a.size / 2;
        let nose_in = inside_box(nose_x, nose_y, a.position.x, a.position.y, half);
        let left_in = inside_box(l_tail_x, tail_y, a.position.x, a.position.y, half);
        let right_in = inside_box(r_tail_x, tail_y, a.position.x, a.position.y, half);
        if nose_in || left_in || right_in {
            has_hit = true;
        }
        proof {
            assert(ship_hits_asteroid(player@, asteroids@[i as int]@) == (nose_in || left_in || right_in));
            if prior {
                let k = choose|k: int| 0 <= k < i && ship_hits_asteroid(player@, #[trigger] asteroids@[k]@);
                assert(ship_hits_asteroid(player@, asteroids@[k]@));
            }
        }
        i = i + 1;
    }
    proof {
        if has_hit {
            let k = choose|k: int| 0 <= k < asteroids@.len() && ship_hits_asteroid(player@, #[trigger] asteroids@[k]@);
            assert(ship_hits_asteroid(player@, asteroids_v(asteroids@)[k]));
        }
        if ship_crashed(player@, asteroids_v(asteroids@)) {
            let k = choose|k: int| 0 <= k < asteroids_v(asteroids@).len() && ship_hits_asteroid(player@, asteroids_v(asteroids@)[k]);
            assert(ship_hits_asteroid(player@, asteroids@[k]@));
        }
    }
    has_hit
}

/// A missile's flag after a sweep of the whole field: set as soon as
/// it overlaps any asteroid, and never cleared.
pub open spec fn missile_flag_all(m: ProjectileV, asts: Seq<AsteroidV>) -> ProjectileV {
    ProjectileV {
        hit: m.hit || exists|j: int| 0 <= j < asts.len() && missile_hits(m, asts[j]),
        ..m
    }
}

/// The total number of missile-asteroid overlaps on the field.
pub open spec fn total_hits(ms: Seq<ProjectileV>, asts: Seq<AsteroidV>) -> int
    decreases asts.len(),
{
    if asts.len() == 0 {
        0
    } else {
        total_hits(ms, asts.drop_last()) + hit_count(ms, asts.last())
    }
}

/// Left flank of an exploding asteroid, where its first fragment
/// appears.
pub open spec fn frag_left(a: AsteroidV) -> Vec2V {
    Vec2V { x: a.position.x - a.size / 2, y: a.position.y }
}

/// Right flank of an exploding asteroid, where its second fragment
/// appears.
pub open spec fn frag_right(a: AsteroidV) -> Vec2V {
    Vec2V { x: a.position.x + a.size / 2, y: a.position.y }
}

/// The fragment spawn points one asteroid contributes to a collision
/// pass: a left/right pair per overlapping missile, none when the
/// asteroid is itself a fragment.
pub open spec fn frag_points_for(ms: Seq<ProjectileV>, a: AsteroidV) -> Seq<Vec2V> {
    if a.fragment {
        Seq::empty()
    } else {
        Seq::new(
            (2 * hit_count(ms, a)) as nat,
            |t: int| if t % 2 == 0 { frag_left(a) } else { frag_right(a) },
        )
    }
}

/// All fragment spawn points of one collision pass, in field order.
pub open spec fn frag_points(ms: Seq<ProjectileV>, asts: Seq<AsteroidV>) -> Seq<Vec2V>
    decreases asts.len(),
{
    if asts.len() == 0 {
        Seq::empty()
    } else {
        frag_points(ms, asts.drop_last()) + frag_points_for(ms, asts.last())
    }
}

/// The asteroids that outlive one collision pass: those no missile
/// overlaps.
pub open spec fn surviving_asteroids(ms: Seq<ProjectileV>, asts: Seq<AsteroidV>) -> Seq<AsteroidV> {
    asts.filter(|a: AsteroidV| !any_hit(ms, a))
}

/// Hit detection reads only missile positions, never their flags, so
/// two volleys that agree on positions agree on every count.
pub proof fn lemma_hit_count_positions(ms1: Seq<ProjectileV>, ms2: Seq<ProjectileV>, a: AsteroidV)
    requires
        ms1.len() == ms2.len(),
        forall|i: int| 0 <= i < ms1.len() ==> (#[trigger] ms1[i]).position == ms2[i].position,
    ensures
        hit_count(ms1, a) == hit_count(ms2, a),
        any_hit(ms1, a) == any_hit(ms2, a),
    decreases ms1.len(),
{
    if ms1.len() > 0 {
        lemma_hit_count_positions(ms1.drop_last(), ms2.drop_last(), a);
        assert(ms1.last().position == ms2.last().position);
    }
    if any_hit(ms1, a) {
        let i = choose|i: int| 0 <= i < ms1.len() && missile_hits(ms1[i], a);
        assert(missile_hits(ms2[i], a));
    }
    if any_hit(ms2, a) {
        let i = choose|i: int| 0 <= i < ms2.len() && missile_hits(ms2[i], a);
        assert(ms1[i].position == ms2[i].position);
        assert(missile_hits(ms1[i], a));
    }
}

pub proof fn lemma_total_hits_take_step(ms: Seq<ProjectileV>, asts: Seq<AsteroidV>, j: int)
    requires
        0 <= j < asts.len(),
    ensures
        total_hits(ms, asts.take(j + 1)) == total_hits(ms, asts.take(j)) + hit_count(ms, asts[j]),
{
    assert(asts.take(j + 1).drop_last() =~= asts.take(j));
    assert(asts.take(j + 1).last() == asts[j]);
}

pub proof fn lemma_total_hits_bounds(ms: Seq<ProjectileV>, asts: Seq<AsteroidV>)
    ensures
        0 <= total_hits(ms, asts) <= ms.len() * asts.len(),
    decreases asts.len(),
{
    if asts.len() == 0 {
    } else {
        lemma_total_hits_bounds(ms, asts.drop_last());
        lemma_hit_count_bounds(ms, asts.last());
        assert(ms.len() * (asts.len() - 1) + ms.len() == ms.len() * asts.len()) by (nonlinear_arith);
    }
}

pub proof fn lemma_frag_points_take_step(ms: Seq<ProjectileV>, asts: Seq<AsteroidV>, j: int)
    requires
        0 <= j < asts.len(),
    ensures
        frag_points(ms, asts.take(j + 1))
            == frag_points(ms, asts.take(j)) + frag_points_for(ms, asts[j]),
{
    assert(asts.take(j + 1).drop_last() =~= asts.take(j));
    assert(asts.take(j + 1).last() == asts[j]);
}

/// Sweep the whole volley against one asteroid. Every overlapping
/// missile is flagged as spent and scores a point; if the asteroid is
/// not itself a fragment, each hit spawns a pair of half-size
/// fragments at its left and right flanks. Returns whether anything
/// struck.
pub fn has_missile_hit_asteroid(
    missiles: &mut Vec<Projectile>,
    asteroid: &Asteroid,
    score: &mut u32,
    fragments: &mut Vec<Asteroid>,
) -> (r: bool)
    requires
        forall|i: int| 0 <= i < old(missiles)@.len() ==> projectile_wf(#[trigger] old(missiles)@[i]@),
        asteroid_wf(asteroid@),
        -1640 <= asteroid@.position.x <= 1640,
        -1640 <= asteroid@.position.y <= 1640,
        *old(score) + old(missiles)@.len() <= u32::MAX,
        forall|i: int| 0 <= i < old(fragments)@.len() ==> asteroid_wf(#[trigger] old(fragments)@[i]@),
    ensures
        r == any_hit(missiles_v(old(missiles)@), asteroid@),
        final(missiles)@.len() == old(missiles)@.len(),
        forall|i: int| 0 <= i < old(missiles)@.len() ==> {
            let m0 = (#[trigger] old(missiles)@[i])@;
            let m1 = final(missiles)@[i]@;
            m1.position == m0.position && m1.rotation == m0.rotation
                && m1.hit == (m0.hit || missile_hits(m0, asteroid@))
        },
        *final(score) == *old(score) + hit_count(missiles_v(old(missiles)@), asteroid@),
        final(fragments)@.len() == old(fragments)@.len()
            + if asteroid@.fragment { 0int } else { 2 * hit_count(missiles_v(old(missiles)@), asteroid@) },
        forall|i: int| 0 <= i < old(fragments)@.len() ==> final(fragments)@[i] == old(fragments)@[i],
        forall|j: int| old(fragments)@.len() <= j < final(fragments)@.len() ==> {
            let f = (#[trigger] final(fragments)@[j])@;
            &&& asteroid_wf(f)
            &&& f.fragment
            &&& f.rotation == 0
            &&& f.num_points == 12
            &&& 80 <= f.size < 160
            &&& f.position.y == asteroid@.position.y
            &&& f.position.x == if (j - old(fragments)@.len()) % 2 == 0 {
                asteroid@.position.x - asteroid@.size / 2
            } else {
                asteroid@.position.x + asteroid@.size / 2
            }
        },
{
    let ghost ms0 = missiles@;
    let ghost f0 = fragments@;
    let ghost s0 = *score;
    let mut has_hit = false;
    let mut i: usize = 0;
    while i < missiles.len()
        invariant
            i <= ms0.len(),
            missiles@.len() == ms0.len(),
            forall|j: int| 0 <= j < ms0.len() ==> projectile_wf((#[trigger] ms0[j])@),
            asteroid_wf(asteroid@),
            -1640 <= asteroid@.position.x <= 1640,
            -1640 <= asteroid@.position.y <= 1640,
            s0 + ms0.len() <= u32::MAX,
            forall|j: int| i <= j < ms0.len() ==> missiles@[j] == ms0[j],
            forall|j: int| 0 <= j < i ==> {
                let m0 = (#[trigger] ms0[j])@;
                let m1 = missiles@[j]@;
                m1.position == m0.position && m1.rotation == m0.rotation
                    && m1.hit == (m0.hit || missile_hits(m0, asteroid@))
            },
            *score == s0 + hit_count(missiles_v(ms0).take(i as int), asteroid@),
            has_hit <==> any_hit(missiles_v(ms0).take(i as int), asteroid@),
            fragments@.len() == f0.len()
                + if asteroid@.fragment { 0int } else { 2 * hit_count(missiles_v(ms0).take(i as int), asteroid@) },
            forall|j: int| 0 <= j < f0.len() ==> fragments@[j] == f0[j],
            forall|j: int| f0.len() <= j < fragments@.len() ==> {
                let f = (#[trigger] fragments@[j])@;
                &&& asteroid_wf(f)
                &&& f.fragment
                &&& f.rotation == 0
                &&& f.num_points == 12
                &&& 80 <= f.size < 160
                &&& f.position.y == asteroid@.position.y
                &&& f.position.x == if (j - f0.len()) % 2 == 0 {
                    asteroid@.position.x - asteroid@.size / 2
                } else {
                    asteroid@.position.x + asteroid@.size / 2
                }
            },
        decreases ms0.len() - i,
    {
        proof {
            assert(projectile_wf(ms0[i as int]@));
            lemma_hit_count_bounds(missiles_v(ms0).take(i as int), asteroid@);
            lemma_hit_count_take_step(missiles_v(ms0), asteroid@, i as int);
            assert(missiles_v(ms0)[i as int] == ms0[i as int]@);
        }
        let ghost prior = has_hit;
        let m = missiles[i];
        let hit_now = inside_box(
            m.position.x + 8,
            m.position.y + 8,
            asteroid.position.x,
            asteroid.position.y,
            asteroid.size / 2,
        );
        proof {
            assert(hit_now == missile_hits(ms0[i as int]@, asteroid@));
        }
        if hit_now {
            let mut m2 = m;
            m2.hit = true;
            missiles[i] = m2;
            *score = *score + 1;
            if !asteroid.fragment {
                let left_point = Vec2 {
                    x: asteroid.position.x - asteroid.size / 2,
                    y: asteroid.position.y,
                };
                let left_frag = generate_asteroid(left_point, 12, 80, 160, true);
                fragments.push(left_frag);
                let right_point = Vec2 {
                    x: asteroid.position.x + asteroid.size / 2,
                    y: asteroid.position.y,
                };
                let right_frag = generate_asteroid(right_point, 12, 80, 160, true);
                fragments.push(right_frag);
            }
            has_hit = true;
        }
        proof {
            if prior {
                let k = choose|k: int| 0 <= k < i && missile_hits(missiles_v(ms0).take(i as int)[k], asteroid@);
                assert(missile_hits(missiles_v(ms0).take(i as int + 1)[k], asteroid@));
            }
        }
        i = i + 1;
    }
    proof {
        assert(missiles_v(ms0).take(ms0.len() as int) =~= missiles_v(ms0));
    }
    has_hit
}

} // verus!
