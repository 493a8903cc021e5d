//! Procedural generation for the shooter: building an asteroid from
//! random draws, and searching for a spawn point clear of the ship
//! and of every asteroid already afloat.

use vstd::prelude::*;

verus! {

use vstd::arithmetic::div_mod::{lemma_div_pos_is_pos, lemma_div_is_ordered, lemma_div_nonincreasing};
use crate::geom::{Vec2, Vec2V, pos_ok, strictly_inside, inside_box};
use crate::trig::FULL_TURN;
use crate::entities::{
    Asteroid, AsteroidV, Player, PlayerV, asteroid_wf, player_wf,
    ASTEROID_MIN_SPEED, ASTEROID_MAX_SPEED, ASTEROID_THICKNESS, ASTEROID_MAX_SIZE, ASTEROID_WIGGLE,
};
use crate::rng::random_in_range;

/// The view of a whole asteroid vector.
pub open spec fn asteroids_v(s: Seq<Asteroid>) -> Seq<AsteroidV> {
    s.map_values(|a: Asteroid| a@)
}

/// Build an asteroid at `position`: random diameter in
/// `[min_size, max_size)`, random spin, random drift heading, and a
/// ring of `num_points` vertex radii jittered within a fifth of the
/// mean radius, closed by repeating the first vertex. The vertex
/// count is capped as the asteroid invariant caps it: at most one
/// base point per degree of the circle the ring samples.
pub fn generate_asteroid(position: Vec2, num_points: u32, min_size: i32, max_size: i32, fragment: bool) -> (a: Asteroid)
    requires
        pos_ok(position@),
        80 <= min_size < max_size <= 320,
        1 <= num_points <= 360,
    ensures
        asteroid_wf(a@),
        a@.position == position@,
        a@.fragment == fragment,
        a@.num_points == num_points as int,
        a@.rotation == 0,
        min_size <= a@.size < max_size,
        -40 <= a@.rotation_speed < 40,
        a@.thickness == if fragment { 8int } else { 20int },
        a@.radii[a@.radii.len() - 1] == a@.radii[0],
        forall|i: int| 0 <= i < a@.radii.len() ==>
            a@.size / 2 - a@.size / 2 / 5 <= #[trigger] a@.radii[i] < a@.size / 2 + a@.size / 2 / 5,
{
    let size = random_in_range(min_size, max_size);
    let speed = random_in_range(ASTEROID_MIN_SPEED, ASTEROID_MAX_SPEED);
    let thickness = if fragment {
        ASTEROID_THICKNESS * 2 / 5
    } else {
        ASTEROID_THICKNESS
    };
    let heading = random_in_range(0, FULL_TURN);
    let half = size / 2;
    proof {
        lemma_div_pos_is_pos(size as int, 2);
        lemma_div_is_ordered(80, size as int, 2);
        lemma_div_is_ordered(size as int, 320, 2);
        lemma_div_pos_is_pos(half as int, 5);
        lemma_div_is_ordered(5, half as int, 5);
        lemma_div_nonincreasing(half as int, 5);
    }
    let lo = half - half / 5;
    let hi = half + half / 5;
    let mut radii: Vec<i32> = Vec::new();
    let mut i: u32 = 0;
    while i < num_points
        invariant
            i <= num_points,
            radii@.len() == i,
            lo < hi,
            0 <= lo,
            hi <= 2 * half,
            forall|k: int| 0 <= k < i ==> lo <= #[trigger] radii@[k] < hi,
        decreases num_points - i,
    {
        let rad = random_in_range(lo, hi);
        radii.push(rad);
        i = i + 1;
    }
    let first = radii[0];
    radii.push(first);
    let a = Asteroid {
        position,
        rotation: 0,
        rotation_speed: speed,
        size,
        num_points,
        fragment,
        thickness,
        thrust_rotation: heading,
        radii,
    };
    proof {
        assert(a@.radii =~= a.radii@.map_values(|r: i32| r as int));
        assert(forall|k: int| 0 <= k < a@.radii.len() ==> a@.radii[k] == a.radii@[k] as int);
    }
    a
}

/// A candidate spawn point keeps a full asteroid diameter away from
/// the ship on both axes.
pub open spec fn clear_of_player(q: Vec2V, p: Vec2V) -> bool {
    (q.x < p.x - 320 || q.x > p.x + 320) && (q.y > p.y + 320 || q.y < p.y - 320)
}

/// A candidate spawn point stays out of the wiggle box around an
/// existing asteroid.
pub open spec fn clear_of_asteroid(q: Vec2V, a: AsteroidV) -> bool {
    !strictly_inside(q.x, q.y, a.position.x, a.position.y, 400)
}

/// What `new_point` promises of a point it returns: inside the spawn
/// margin of the field, clear of the ship, clear of every asteroid.
pub open spec fn spawn_point_ok(q: Vec2V, p: PlayerV, asts: Seq<AsteroidV>) -> bool {
    &&& -960 <= q.x < 960
    &&& -640 <= q.y < 640
    &&& clear_of_player(q, p.position)
    &&& forall|i: int| 0 <= i < asts.len() ==> clear_of_asteroid(q, #[trigger] asts[i])
}

/// A ship parked beyond the whole draw window on both axes: every
/// point the spawner can draw then clears it.
pub open spec fn player_outside_draw(p: PlayerV) -> bool {
    &&& (p.position.x < -1280 || p.position.x > 1280)
    &&& (p.position.y < -960 || p.position.y > 960)
}

/// Draw up to `tries` random points and return the first that is
/// clear of the ship and of every asteroid, or `None` when the luck
/// runs out. When no draw can fail — the field is empty and the ship
/// is parked beyond the draw window — one try already owes a point.
pub fn new_point(player: &Player, asteroids: &Vec<Asteroid>, tries: u32) -> (r: Option<Vec2>)
    requires
        player_wf(player@),
        forall|i: int| 0 <= i < asteroids@.len() ==> asteroid_wf(#[trigger] asteroids@[i]@),
    ensures
        match r {
            Option::Some(q) => spawn_point_ok(q@, player@, asteroids_v(asteroids@)),
            Option::None => true,
        },
        tries >= 1 && asteroids@.len() == 0 && player_outside_draw(player@) ==> r is Some,
{
    let mut t: u32 = 0;
    while t < tries
        invariant
            player_wf(player@),
            forall|i: int| 0 <= i < asteroids@.len() ==> asteroid_wf(#[trigger] asteroids@[i]@),
            asteroids@.len() == 0 && player_outside_draw(player@) ==> t == 0,
        decreases tries - t,
    {
        let x = random_in_range(-960, 960);
        let y = random_in_range(-640, 640);
        let left_edge = x < player.position.x - ASTEROID_MAX_SIZE;
        let right_edge = x > player.position.x + ASTEROID_MAX_SIZE;
        let top_edge = y > player.position.y + ASTEROID_MAX_SIZE;
        let bottom_edge = y < player.position.y - ASTEROID_MAX_SIZE;
        if (left_edge || right_edge) && (top_edge || bottom_edge) {
            let ghost qv = Vec2V { x: x as int, y: y as int };
            let mut ok = true;
            let mut j: usize = 0;
            while j < asteroids.len()
                invariant
                    j <= asteroids@.len(),
                    forall|i: int| 0 <= i < asteroids@.len() ==> asteroid_wf(#[trigger] asteroids@[i]@),
                    -960 <= x < 960,
                    -640 <= y < 640,
                    qv == (Vec2V { x: x as int, y: y as int }),
                    ok <==> forall|k: int| 0 <= k < j ==> clear_of_asteroid(qv, #[trigger] asteroids@[k]@),
                decreases asteroids@.len() - j,
            {
                proof {
                    assert(asteroid_wf(asteroids@[j as int]@));
                }
                let was_ok = ok;
                let hit_here = inside_box(x, y, asteroids[j].position.x, asteroids[j].position.y, ASTEROID_WIGGLE);
                proof {
                    assert(clear_of_asteroid(qv, asteroids@[j as int]@) == !hit_here);
                }
                if hit_here {
                    ok = false;
                }
                proof {
                    if !was_ok {
                        let k = choose|k: int| 0 <= k < j && !clear_of_asteroid(qv, #[trigger] asteroids@[k]@);
                        assert(!clear_of_asteroid(qv, asteroids@[k]@));
                    }
                }
                j = j + 1;
            }
            if ok {
                let q = Vec2 { x, y };
                proof {
                    assert(forall|i: int| 0 <= i < asteroids@.len() ==>
                        clear_of_asteroid(q@, #[trigger] asteroids_v(asteroids@)[i]));
                }
                return Option::Some(q);
            }
            proof {
                // an empty field cannot have refused the point
                if asteroids@.len() == 0 {
                    assert(ok);
                    assert(false);
                }
            }
        } else {
            proof {
                // a ship beyond the draw window cannot have blocked it
                if player_outside_draw(player@) {
                    assert(left_edge || right_edge);
                    assert(top_edge || bottom_edge);
                    assert(false);
                }
            }
        }
        t = t + 1;
    }
    proof {
        if tries >= 1 && asteroids@.len() == 0 && player_outside_draw(player@) {
            assert(t == 0 && t >= tries);
            assert(false);
        }
    }
    Option::None
}

} // verus!
