//! The shooter's entities — ship, missiles, asteroids, difficulty —
//! with their mathematical views and well-formedness invariants.

use vstd::prelude::*;

verus! {

use crate::geom::{Vec2, Vec2V, pos_ok};
use crate::trig::angle_wf;

/// Distance from the ship's centre to its nose tip, quarter pixels.
pub const SPACESHIP_PEAK: i32 = 65;

/// Distance from the ship's centre plane to its tail notch.
pub const SPACESHIP_TROUGH: i32 = 26;

/// Full width of the ship across the tail.
pub const SPACESHIP_WIDTH: i32 = 120;

/// Thrust impulse of the ship, quarter pixels per frame before easing.
pub const SPACESHIP_SPEED: i32 = 12;

/// Rotation applied per frame while a turn key is held, tenth-degrees.
pub const ANGLE_INC: i32 = 36;

/// Speed of a missile, quarter pixels per frame.
pub const MISSILE_SPEED: i32 = 32;

/// Side of the square missile sprite, quarter pixels.
pub const MISSILE_SIZE: i32 = 16;

/// The spawner stops adding asteroids at this count; fragments of an
/// exploded asteroid may push the total above it.
pub const MAX_ASTEROIDS: u32 = 5;

/// Largest diameter of a freshly spawned asteroid, quarter pixels.
pub const ASTEROID_MAX_SIZE: i32 = 320;

/// Smallest diameter of a freshly spawned asteroid.
pub const ASTEROID_MIN_SIZE: i32 = 160;

/// Fastest spin of an asteroid, tenth-degrees per frame.
pub const ASTEROID_MAX_SPEED: i32 = 40;

/// Slowest (most negative) spin of an asteroid.
pub const ASTEROID_MIN_SPEED: i32 = -40;

/// Outline weight of a full-size asteroid, quarter pixels.
pub const ASTEROID_THICKNESS: i32 = 20;

/// Clearance demanded between a spawn point and every other asteroid.
pub const ASTEROID_WIGGLE: i32 = 400;

/// Drift speed of an asteroid, quarter pixels per frame.
pub const ASTEROID_SPEED: i32 = 2;

/// A missile in flight.
#[derive(Clone, Copy, PartialEq, Eq, Structural, Debug)]
pub struct Projectile {
    pub hit: bool,
    pub position: Vec2,
    pub rotation: i32,
}

/// The mathematical shadow of a missile.
pub ghost struct ProjectileV {
    pub hit: bool,
    pub position: Vec2V,
    pub rotation: int,
}

impl View for Projectile {
    type V = ProjectileV;

    open spec fn view(&self) -> ProjectileV {
        ProjectileV { hit: self.hit, position: self.position@, rotation: self.rotation as int }
    }
}

pub open spec fn projectile_wf(m: ProjectileV) -> bool {
    pos_ok(m.position) && angle_wf(m.rotation)
}

/// The player's ship, its score and its missiles.
pub struct Player {
    pub position: Vec2,
    pub rotation: i32,
    pub rotation_inc: i32,
    pub score: u32,
    pub thrust: bool,
    pub thrust_rotation: i32,
    pub thrust_counter: u32,
    pub missile: Vec<Projectile>,
}

/// The mathematical shadow of the player.
#[verifier::ext_equal]
pub ghost struct PlayerV {
    pub position: Vec2V,
    pub rotation: int,
    pub rotation_inc: int,
    pub score: int,
    pub thrust: bool,
    pub thrust_rotation: int,
    pub thrust_counter: int,
    pub missile: Seq<ProjectileV>,
}

impl View for Player {
    type V = PlayerV;

    open spec fn view(&self) -> PlayerV {
        PlayerV {
            position: self.position@,
            rotation: self.rotation as int,
            rotation_inc: self.rotation_inc as int,
            score: self.score as int,
            thrust: self.thrust,
            thrust_rotation: self.thrust_rotation as int,
            thrust_counter: self.thrust_counter as int,
            missile: self.missile@.map_values(|m: Projectile| m@),
        }
    }
}

pub open spec fn player_wf(p: PlayerV) -> bool {
    &&& pos_ok(p.position)
    &&& angle_wf(p.rotation)
    &&& angle_wf(p.thrust_rotation)
    &&& (p.rotation_inc == -36 || p.rotation_inc == 0 || p.rotation_inc == 36)
    &&& forall|i: int| 0 <= i < p.missile.len() ==> projectile_wf(#[trigger] p.missile[i])
}

/// A drifting, spinning asteroid. `thrust_rotation` is its fixed
/// drift heading; `radii` are the distances of its outline vertices
/// from its centre, the last repeating the first to close the loop.
pub struct Asteroid {
    pub position: Vec2,
    pub rotation: i32,
    pub rotation_speed: i32,
    pub size: i32,
    pub num_points: u32,
    pub fragment: bool,
    pub thickness: i32,
    pub thrust_rotation: i32,
    pub radii: Vec<i32>,
}

/// The mathematical shadow of an asteroid.
#[verifier::ext_equal]
pub ghost struct AsteroidV {
    pub position: Vec2V,
    pub rotation: int,
    pub rotation_speed: int,
    pub size: int,
    pub num_points: int,
    pub fragment: bool,
    pub thickness: int,
    pub thrust_rotation: int,
    pub radii: Seq<int>,
}

impl View for Asteroid {
    type V = AsteroidV;

    open spec fn view(&self) -> AsteroidV {
        AsteroidV {
            position: self.position@,
            rotation: self.rotation as int,
            rotation_speed: self.rotation_speed as int,
            size: self.size as int,
            num_points: self.num_points as int,
            fragment: self.fragment,
            thickness: self.thickness as int,
            thrust_rotation: self.thrust_rotation as int,
            radii: self.radii@.map_values(|r: i32| r as int),
        }
    }
}

/// The outline's vertex count is capped at one base point per degree
/// of the circle it samples: a finer ring would place several
/// vertices on one angle step and degenerate. The games use 8 and 12.
pub open spec fn asteroid_wf(a: AsteroidV) -> bool {
    &&& pos_ok(a.position)
    &&& angle_wf(a.rotation)
    &&& angle_wf(a.thrust_rotation)
    &&& -40 <= a.rotation_speed <= 40
    &&& 80 <= a.size <= 320
    &&& (a.thickness == 8 || a.thickness == 20)
    &&& 1 <= a.num_points <= 360
    &&& a.radii.len() == a.num_points + 1
    &&& forall|i: int| 0 <= i < a.radii.len() ==> 0 <= #[trigger] a.radii[i] <= a.size
}

/// The difficulty ramp: its current ceilings and the clock of its
/// five-second ticks, in host milliseconds.
pub struct Difficulty {
    pub max_asteroids: u32,
    pub max_asteroid_speed: i32,
    pub last_ramp_ms: u64,
    pub ramp_interval_ms: u64,
}

/// The mathematical shadow of the difficulty ramp.
pub ghost struct DifficultyV {
    pub max_asteroids: int,
    pub max_asteroid_speed: int,
    pub last_ramp_ms: int,
    pub ramp_interval_ms: int,
}

impl View for Difficulty {
    type V = DifficultyV;

    open spec fn view(&self) -> DifficultyV {
        DifficultyV {
            max_asteroids: self.max_asteroids as int,
            max_asteroid_speed: self.max_asteroid_speed as int,
            last_ramp_ms: self.last_ramp_ms as int,
            ramp_interval_ms: self.ramp_interval_ms as int,
        }
    }
}

} // verus!
