//! The shooter's game flow: the whole model, its three phases, the
//! keyboard-driven state machine, the per-frame updates of ship,
//! missiles and asteroids, the difficulty ramp and the menu blink.

use vstd::prelude::*;

verus! {

use crate::geom::{Vec2, Vec2V, moved_pos, wrapped_pos, wrap_position, translate};
use crate::collision::{
    missiles_v, missile_out, missile_hits, any_hit, total_hits, missile_flag_all,
    frag_points, frag_points_for, frag_left, frag_right, surviving_asteroids,
    has_missile_hit_edge, has_missile_hit_asteroid, has_ship_hit_asteroid, ship_crashed,
    lemma_hit_count_bounds, lemma_hit_count_positions, lemma_total_hits_take_step,
    lemma_total_hits_bounds, lemma_frag_points_take_step,
};
use crate::spawn::{asteroids_v, spawn_point_ok, player_outside_draw, new_point, generate_asteroid};
use crate::trig::{
    turned, sine_milli, cosine_milli, scaled_milli, eased_milli, thrust_ease_spec,
    add_angle, sin_milli, cos_milli, scale_milli, ease_scale_milli, thrust_ease_milli,
    QUARTER_TURN,
};
use crate::events::{KeyInput, StateEvents, State, InputEvent, key_press_event, key_release_event, keypress_to_state, keyrelease_to_state};
use crate::entities::{
    Projectile, ProjectileV, Player, PlayerV, Asteroid, AsteroidV, Difficulty, DifficultyV,
    projectile_wf, player_wf, asteroid_wf,
    SPACESHIP_PEAK, SPACESHIP_SPEED, ANGLE_INC, MISSILE_SPEED,
    MAX_ASTEROIDS, ASTEROID_MAX_SIZE, ASTEROID_MIN_SIZE, ASTEROID_MAX_SPEED, ASTEROID_SPEED,
};

/// The menu's blinking prompt: its last toggle and current visibility.
pub struct BlinkTimer {
    pub last_toggle_ms: u64,
    pub display_text: bool,
}

/// The mathematical shadow of the blink timer.
pub ghost struct BlinkV {
    pub last_toggle_ms: int,
    pub display_text: bool,
}

impl View for BlinkTimer {
    type V = BlinkV;

    open spec fn view(&self) -> BlinkV {
        BlinkV { last_toggle_ms: self.last_toggle_ms as int, display_text: self.display_text }
    }
}

/// The whole state of the shooter that the update rules touch.
/// Fonts, audio streams and the window itself stay with the host.
pub struct GameModel {
    pub player: Player,
    pub asteroid: Vec<Asteroid>,
    pub last_event: InputEvent,
    pub game_state: State,
    pub difficulty: Difficulty,
    pub blink: BlinkTimer,
}

/// The mathematical shadow of the whole model.
#[verifier::ext_equal]
pub ghost struct GameModelV {
    pub player: PlayerV,
    pub asteroid: Seq<AsteroidV>,
    pub last_event: InputEvent,
    pub game_state: State,
    pub difficulty: DifficultyV,
    pub blink: BlinkV,
}

impl View for GameModel {
    type V = GameModelV;

    open spec fn view(&self) -> GameModelV {
        GameModelV {
            player: self.player@,
            asteroid: self.asteroid@.map_values(|a: Asteroid| a@),
            last_event: self.last_event,
            game_state: self.game_state,
            difficulty: self.difficulty@,
            blink: self.blink@,
        }
    }
}

pub open spec fn model_wf(g: GameModelV) -> bool {
    &&& player_wf(g.player)
    &&& forall|i: int| 0 <= i < g.asteroid.len() ==> asteroid_wf(#[trigger] g.asteroid[i])
}

/// The player every round starts with: centred, still, unarmed.
pub open spec fn fresh_player() -> PlayerV {
    PlayerV {
        position: Vec2V { x: 0, y: 0 },
        rotation: 0,
        rotation_inc: 0,
        score: 0,
        thrust: false,
        thrust_rotation: 0,
        thrust_counter: 0,
        missile: Seq::empty(),
    }
}

/// A missile fired now: unspent, launched from the ship's centre
/// along its current facing.
pub open spec fn new_missile(p: PlayerV) -> ProjectileV {
    ProjectileV { hit: false, position: p.position, rotation: p.rotation }
}

/// The player after one state-machine event, firing included.
pub open spec fn applied_event(p: PlayerV, e: StateEvents) -> PlayerV {
    match e {
        StateEvents::LeftKeyPress => PlayerV { rotation_inc: 36, ..p },
        StateEvents::LeftKeyRelease => PlayerV { rotation_inc: 0, ..p },
        StateEvents::RightKeyPress => PlayerV { rotation_inc: -36, ..p },
        StateEvents::RightKeyRelease => PlayerV { rotation_inc: 0, ..p },
        StateEvents::UpKeyPress => PlayerV { thrust: true, ..p },
        StateEvents::UpKeyRelease => PlayerV { thrust: false, ..p },
        StateEvents::SpaceKeyPress => PlayerV { missile: p.missile.push(new_missile(p)), ..p },
        StateEvents::SpaceKeyRelease => p,
        StateEvents::NoneKeyPress => p,
    }
}

/// The player after one state-machine event, without the firing arm.
pub open spec fn applied_motion_event(p: PlayerV, e: StateEvents) -> PlayerV {
    match e {
        StateEvents::SpaceKeyPress => p,
        _ => applied_event(p, e),
    }
}

/// Push a fresh missile carrying the ship's position and facing.
pub fn fire_missile(player: &mut Player)
    requires
        player_wf(old(player)@),
    ensures
        final(player)@ == (PlayerV { missile: old(player)@.missile.push(new_missile(old(player)@)), ..old(player)@ }),
        player_wf(final(player)@),
{
    let missile = Projectile {
        hit: false,
        position: player.position,
        rotation: player.rotation,
    };
    player.missile.push(missile);
    proof {
        assert(final(player)@.missile =~= old(player)@.missile.push(new_missile(old(player)@)));
        assert(final(player)@ =~= (PlayerV { missile: old(player)@.missile.push(new_missile(old(player)@)), ..old(player)@ }));
    }
}

/// Drive the player by one state-machine event: turn keys set the
/// rotation rate, the up key latches thrust, space fires a missile.
pub fn handle_event(player: &mut Player, event: StateEvents)
    requires
        player_wf(old(player)@),
    ensures
        final(player)@ == applied_event(old(player)@, event),
        player_wf(final(player)@),
{
    match event {
        StateEvents::LeftKeyPress => {
            player.rotation_inc = ANGLE_INC;
        }
        StateEvents::LeftKeyRelease => {
            player.rotation_inc = 0;
        }
        StateEvents::RightKeyPress => {
            player.rotation_inc = -ANGLE_INC;
        }
        StateEvents::RightKeyRelease => {
            player.rotation_inc = 0;
        }
        StateEvents::UpKeyPress => {
            player.thrust = true;
        }
        StateEvents::UpKeyRelease => {
            player.thrust = false;
        }
        StateEvents::SpaceKeyPress => {
            fire_missile(player);
        }
        _ => {}
    }
    proof {
        assert(final(player)@ =~= applied_event(old(player)@, event));
    }
}

/// The same state machine without the firing arm, as wired while the
/// firing path is owned elsewhere.
pub fn state_idle(player: &mut Player, event: StateEvents)
    requires
        player_wf(old(player)@),
    ensures
        final(player)@ == applied_motion_event(old(player)@, event),
        player_wf(final(player)@),
{
    match event {
        StateEvents::LeftKeyPress => {
            player.rotation_inc = ANGLE_INC;
        }
        StateEvents::LeftKeyRelease => {
            player.rotation_inc = 0;
        }
        StateEvents::RightKeyPress => {
            player.rotation_inc = -ANGLE_INC;
        }
        StateEvents::RightKeyRelease => {
            player.rotation_inc = 0;
        }
        StateEvents::UpKeyPress => {
            player.thrust = true;
        }
        StateEvents::UpKeyRelease => {
            player.thrust = false;
        }
        _ => {}
    }
    proof {
        assert(final(player)@ =~= applied_motion_event(old(player)@, event));
    }
}

/// A whole model put back to the start of a round: fresh player, an
/// empty field, the difficulty ceilings at their floors, play on.
pub open spec fn reset_model(g: GameModelV) -> GameModelV {
    GameModelV {
        player: fresh_player(),
        asteroid: Seq::empty(),
        last_event: InputEvent::Released(KeyInput::Other),
        game_state: State::Idle,
        difficulty: DifficultyV {
            max_asteroids: MAX_ASTEROIDS as int,
            max_asteroid_speed: ASTEROID_MAX_SPEED as int,
            ..g.difficulty
        },
        blink: g.blink,
    }
}

pub fn reset(model: &mut GameModel)
    ensures
        final(model)@ == reset_model(old(model)@),
        model_wf(final(model)@),
{
    model.player.position = Vec2 { x: 0, y: 0 };
    model.player.rotation = 0;
    model.player.rotation_inc = 0;
    model.player.score = 0;
    model.player.thrust = false;
    model.player.thrust_rotation = 0;
    model.player.thrust_counter = 0;
    model.player.missile = Vec::new();
    model.asteroid = Vec::new();
    model.last_event = InputEvent::Released(KeyInput::Other);
    model.game_state = State::Idle;
    model.difficulty.max_asteroids = MAX_ASTEROIDS;
    model.difficulty.max_asteroid_speed = ASTEROID_MAX_SPEED;
    proof {
        assert(final(model)@.player =~= fresh_player());
        assert(final(model)@.asteroid =~= Seq::<AsteroidV>::empty());
        assert(final(model)@ =~= reset_model(old(model)@));
    }
}

/// The state-machine event carried by a raw input event.
pub open spec fn event_to_state(e: InputEvent) -> StateEvents {
    match e {
        InputEvent::Pressed(k) => key_press_event(k),
        InputEvent::Released(k) => key_release_event(k),
    }
}

/// A model in play after one raw input event: repeats of the last
/// event are ignored, anything new drives the player's state machine
/// and is remembered.
pub open spec fn idle_evented(g: GameModelV, e: InputEvent) -> GameModelV {
    if g.last_event == e {
        g
    } else {
        GameModelV { last_event: e, player: applied_event(g.player, event_to_state(e)), ..g }
    }
}

pub fn idle_event(model: &mut GameModel, event: InputEvent)
    requires
        model_wf(old(model)@),
    ensures
        final(model)@ == idle_evented(old(model)@, event),
        model_wf(final(model)@),
{
    if model.last_event != event {
        match event {
            InputEvent::Pressed(key) => {
                let e = keypress_to_state(key);
                handle_event(&mut model.player, e);
            }
            InputEvent::Released(key) => {
                let e = keyrelease_to_state(key);
                handle_event(&mut model.player, e);
            }
        }
        model.last_event = event;
    }
    proof {
        assert(final(model)@ =~= idle_evented(old(model)@, event));
    }
}

/// A model in the menu or on the game-over screen after one raw
/// input event: any key press starts a fresh round.
pub open spec fn menu_evented(g: GameModelV, e: InputEvent) -> GameModelV {
    match e {
        InputEvent::Pressed(_) => reset_model(g),
        InputEvent::Released(_) => g,
    }
}

pub fn menu_event(model: &mut GameModel, event: InputEvent)
    ensures
        final(model)@ == menu_evented(old(model)@, event),
        model_wf(final(model)@) || final(model)@ == old(model)@,
{
    match event {
        InputEvent::Pressed(_) => {
            reset(model);
        }
        InputEvent::Released(_) => {}
    }
    proof {
        assert(final(model)@ =~= menu_evented(old(model)@, event));
    }
}

/// The raw-event dispatch over the three phases: play listens with
/// edge detection, menu and game-over wait for any key.
pub open spec fn window_evented(g: GameModelV, e: InputEvent) -> GameModelV {
    match g.game_state {
        State::Idle => idle_evented(g, e),
        State::GameOver => menu_evented(g, e),
        State::Menu => menu_evented(g, e),
    }
}

pub fn window_event(model: &mut GameModel, event: InputEvent)
    requires
        model_wf(old(model)@),
    ensures
        final(model)@ == window_evented(old(model)@, event),
        model_wf(final(model)@),
{
    match model.game_state {
        State::Idle => idle_event(model, event),
        State::GameOver => menu_event(model, event),
        State::Menu => menu_event(model, event),
    }
}

/// The model a fresh program starts with: menu phase, empty field,
/// both timers anchored at the host's current clock.
pub fn initial_model(now_ms: u64) -> (m: GameModel)
    ensures
        m@.player == fresh_player(),
        m@.asteroid == Seq::<AsteroidV>::empty(),
        m@.last_event == InputEvent::Released(KeyInput::Other),
        m@.game_state == State::Menu,
        m@.difficulty == (DifficultyV {
            max_asteroids: MAX_ASTEROIDS as int,
            max_asteroid_speed: ASTEROID_MAX_SPEED as int,
            last_ramp_ms: now_ms as int,
            ramp_interval_ms: 5000,
        }),
        m@.blink == (BlinkV { last_toggle_ms: now_ms as int, display_text: true }),
        model_wf(m@),
{
    let m = GameModel {
        player: Player {
            position: Vec2 { x: 0, y: 0 },
            rotation: 0,
            rotation_inc: 0,
            score: 0,
            thrust: false,
            thrust_rotation: 0,
            thrust_counter: 0,
            missile: Vec::new(),
        },
        asteroid: Vec::new(),
        last_event: InputEvent::Released(KeyInput::Other),
        game_state: State::Menu,
        difficulty: Difficulty {
            max_asteroids: MAX_ASTEROIDS,
            max_asteroid_speed: ASTEROID_MAX_SPEED,
            last_ramp_ms: now_ms,
            ramp_interval_ms: 5000,
        },
        blink: BlinkTimer { last_toggle_ms: now_ms, display_text: true },
    };
    proof {
        assert(m@.player =~= fresh_player());
        assert(m@.asteroid =~= Seq::<AsteroidV>::empty());
    }
    m
}

/// The probe offset of the ship's wrap test: one peak length along
/// its facing (the stored rotation plus a quarter turn).
pub open spec fn ship_probe_off(rot: int) -> Vec2V {
    let tr = turned(rot, 900);
    Vec2V { x: scaled_milli(65, cosine_milli(tr)), y: scaled_milli(65, sine_milli(tr)) }
}

/// The ship after one frame of kinematics: turn by the held rate,
/// latch the thrust heading and restart the easing while thrusting,
/// wrap at the edges, glide along the thrust heading with the eased
/// impulse, and age the easing counter. Missiles and score are not
/// touched here.
pub open spec fn stepped_ship(p: PlayerV) -> PlayerV {
    let rot = turned(p.rotation, p.rotation_inc);
    let t_rot = if p.thrust { rot } else { p.thrust_rotation };
    let counter = if p.thrust { 0int } else { p.thrust_counter };
    let w = wrapped_pos(p.position, ship_probe_off(rot));
    let e = thrust_ease_spec(counter as nat);
    let step = Vec2V {
        x: -eased_milli(12, sine_milli(t_rot), e),
        y: eased_milli(12, cosine_milli(t_rot), e),
    };
    PlayerV {
        position: moved_pos(w, step),
        rotation: rot,
        thrust_rotation: t_rot,
        thrust_counter: if counter < u32::MAX { counter + 1 } else { counter },
        ..p
    }
}

pub fn step_ship(player: &mut Player)
    requires
        player_wf(old(player)@),
    ensures
        final(player)@ == stepped_ship(old(player)@),
        player_wf(final(player)@),
{
    player.rotation = add_angle(player.rotation, player.rotation_inc);
    if player.thrust {
        player.thrust_rotation = player.rotation;
        player.thrust_counter = 0;
    }
    let tr = add_angle(player.rotation, QUARTER_TURN);
    let off = Vec2 {
        x: scale_milli(SPACESHIP_PEAK, cos_milli(tr)),
        y: scale_milli(SPACESHIP_PEAK, sin_milli(tr)),
    };
    wrap_position(&mut player.position, off);
    let e = thrust_ease_milli(player.thrust_counter);
    let s = sin_milli(player.thrust_rotation);
    let c = cos_milli(player.thrust_rotation);
    let step = Vec2 {
        x: -ease_scale_milli(SPACESHIP_SPEED, s, e),
        y: ease_scale_milli(SPACESHIP_SPEED, c, e),
    };
    translate(&mut player.position, step);
    if player.thrust_counter < u32::MAX {
        player.thrust_counter = player.thrust_counter + 1;
    }
    proof {
        assert(final(player)@ =~= stepped_ship(old(player)@));
    }
}

/// The probe offset of an asteroid's wrap test: its mean radius along
/// its current rotation plus a quarter turn.
pub open spec fn asteroid_probe_off(a: AsteroidV) -> Vec2V {
    let tr = turned(a.rotation, 900);
    Vec2V {
        x: scaled_milli(a.size / 2, cosine_milli(tr)),
        y: scaled_milli(a.size / 2, sine_milli(tr)),
    }
}

/// One frame of an asteroid's drift along its fixed heading.
pub open spec fn asteroid_drift(a: AsteroidV) -> Vec2V {
    Vec2V {
        x: -scaled_milli(2, sine_milli(a.thrust_rotation)),
        y: scaled_milli(2, cosine_milli(a.thrust_rotation)),
    }
}

/// An asteroid after one frame: wrapped at the edges, spun by its
/// rotation speed, drifted along its heading.
pub open spec fn stepped_asteroid(a: AsteroidV) -> AsteroidV {
    AsteroidV {
        position: moved_pos(wrapped_pos(a.position, asteroid_probe_off(a)), asteroid_drift(a)),
        rotation: turned(a.rotation, a.rotation_speed),
        ..a
    }
}

/// The position bound a just-stepped asteroid satisfies: at most one
/// probe length and one drift step outside the field.
pub open spec fn stepped_ast_pos_ok(a: AsteroidV) -> bool {
    -1482 <= a.position.x <= 1482 && -1162 <= a.position.y <= 1162
}

pub fn step_asteroid(a: &mut Asteroid)
    requires
        asteroid_wf(old(a)@),
    ensures
        final(a)@ == stepped_asteroid(old(a)@),
        asteroid_wf(final(a)@),
        stepped_ast_pos_ok(final(a)@),
{
    let tr = add_angle(a.rotation, QUARTER_TURN);
    let off = Vec2 {
        x: scale_milli(a.size / 2, cos_milli(tr)),
        y: scale_milli(a.size / 2, sin_milli(tr)),
    };
    wrap_position(&mut a.position, off);
    a.rotation = add_angle(a.rotation, a.rotation_speed);
    let drift = Vec2 {
        x: -scale_milli(ASTEROID_SPEED, sin_milli(a.thrust_rotation)),
        y: scale_milli(ASTEROID_SPEED, cos_milli(a.thrust_rotation)),
    };
    translate(&mut a.position, drift);
    proof {
        assert(final(a)@ =~= stepped_asteroid(old(a)@));
    }
}

/// Step every asteroid of the field in place.
pub fn step_asteroids(asteroids: &mut Vec<Asteroid>)
    requires
        forall|i: int| 0 <= i < old(asteroids)@.len() ==> asteroid_wf((#[trigger] old(asteroids)@[i])@),
    ensures
        final(asteroids)@.len() == old(asteroids)@.len(),
        forall|i: int| 0 <= i < old(asteroids)@.len() ==>
            (#[trigger] final(asteroids)@[i])@ == stepped_asteroid(old(asteroids)@[i]@),
        forall|i: int| 0 <= i < final(asteroids)@.len() ==> asteroid_wf((#[trigger] final(asteroids)@[i])@),
        forall|i: int| 0 <= i < final(asteroids)@.len() ==> stepped_ast_pos_ok((#[trigger] final(asteroids)@[i])@),
{
    let ghost as0 = asteroids@;
    let mut i: usize = 0;
    while i < asteroids.len()
        invariant
            i <= as0.len(),
            asteroids@.len() == as0.len(),
            forall|k: int| 0 <= k < as0.len() ==> asteroid_wf((#[trigger] as0[k])@),
            forall|k: int| i <= k < as0.len() ==> asteroids@[k] == as0[k],
            forall|k: int| 0 <= k < i ==> (#[trigger] asteroids@[k])@ == stepped_asteroid(as0[k]@),
            forall|k: int| 0 <= k < i ==> asteroid_wf((#[trigger] asteroids@[k])@),
            forall|k: int| 0 <= k < i ==> stepped_ast_pos_ok((#[trigger] asteroids@[k])@),
        decreases as0.len() - i,
    {
        proof {
            assert(asteroids@[i as int] == as0[i as int]);
        }
        step_asteroid(&mut asteroids[i]);
        i = i + 1;
    }
}

/// A missile after one frame of flight along its fixed facing.
pub open spec fn stepped_missile(m: ProjectileV) -> ProjectileV {
    ProjectileV {
        position: Vec2V {
            x: m.position.x - scaled_milli(32, sine_milli(m.rotation)),
            y: m.position.y + scaled_milli(32, cosine_milli(m.rotation)),
        },
        ..m
    }
}

/// The missiles the cull keeps: those on the field and unspent.
pub open spec fn culled_missiles(ms: Seq<ProjectileV>) -> Seq<ProjectileV> {
    ms.filter(|m: ProjectileV| !missile_out(m))
}

/// Drop every missile that has left the field or already struck,
/// keeping the rest in order.
pub fn cull_missiles(missiles: &mut Vec<Projectile>)
    requires
        forall|i: int| 0 <= i < old(missiles)@.len() ==> projectile_wf((#[trigger] old(missiles)@[i])@),
    ensures
        missiles_v(final(missiles)@) == culled_missiles(missiles_v(old(missiles)@)),
        forall|i: int| 0 <= i < final(missiles)@.len() ==> projectile_wf((#[trigger] final(missiles)@[i])@),
        forall|i: int| 0 <= i < final(missiles)@.len() ==> !missile_out((#[trigger] final(missiles)@[i])@),
{
    let ghost ms0 = missiles_v(old(missiles)@);
    let ghost pred = |m: ProjectileV| !missile_out(m);
    let mut i: usize = 0;
    let ghost mut j: int = 0;
    while i < missiles.len()
        invariant
            0 <= j <= ms0.len(),
            i as int == ms0.take(j).filter(pred).len(),
            i <= missiles@.len(),
            pred == (|m: ProjectileV| !missile_out(m)),
            ms0 == missiles_v(old(missiles)@),
            missiles_v(missiles@) =~= ms0.take(j).filter(pred) + ms0.skip(j),
            forall|k: int| 0 <= k < missiles@.len() ==> projectile_wf((#[trigger] missiles@[k])@),
            forall|k: int| 0 <= k < i ==> !missile_out((#[trigger] missiles@[k])@),
        decreases ms0.len() - j,
    {
        proof {
            assert(missiles_v(missiles@)[i as int] == ms0.skip(j)[0]);
            assert(ms0.skip(j)[0] == ms0[j]);
            assert(missiles@[i as int]@ == ms0[j]);
            reveal_with_fuel(Seq::filter, 2);
            assert(ms0.take(j + 1) =~= ms0.take(j) + seq![ms0[j]]);
            assert(Seq::<ProjectileV>::empty().filter(pred) =~= Seq::<ProjectileV>::empty());
            assert(seq![ms0[j]].drop_last() =~= Seq::<ProjectileV>::empty());
            assert(seq![ms0[j]].filter(pred) =~= if pred(ms0[j]) { seq![ms0[j]] } else { Seq::<ProjectileV>::empty() });
            Seq::filter_distributes_over_add(ms0.take(j), seq![ms0[j]], pred);
        }
        let out = has_missile_hit_edge(&missiles[i]);
        if out {
            let ghost pre = missiles@;
            missiles.remove(i);
            proof {
                assert(!pred(ms0[j]));
                assert(ms0.take(j + 1).filter(pred) =~= ms0.take(j).filter(pred));
                assert(ms0.skip(j) =~= seq![ms0[j]] + ms0.skip(j + 1));
                assert(missiles_v(missiles@) =~= missiles_v(pre).remove(i as int));
                assert(missiles_v(pre).remove(i as int)
                    =~= ms0.take(j).filter(pred) + ms0.skip(j + 1));
                assert(missiles_v(missiles@) =~= ms0.take(j + 1).filter(pred) + ms0.skip(j + 1));
            }
        } else {
            i = i + 1;
            proof {
                assert(ms0.skip(j) =~= seq![ms0[j]] + ms0.skip(j + 1));
                assert(missiles_v(missiles@) =~= ms0.take(j + 1).filter(pred) + ms0.skip(j + 1));
            }
        }
        proof {
            j = j + 1;
        }
    }
    proof {
        assert(j == ms0.len());
        assert(ms0.take(j) =~= ms0);
        assert(ms0.skip(j) =~= Seq::<ProjectileV>::empty());
        assert(missiles_v(missiles@) =~= ms0.filter(pred));
    }
}

/// Fly every remaining missile one frame forward.
pub fn step_missiles(missiles: &mut Vec<Projectile>)
    requires
        forall|i: int| 0 <= i < old(missiles)@.len() ==> projectile_wf((#[trigger] old(missiles)@[i])@),
        forall|i: int| 0 <= i < old(missiles)@.len() ==> !missile_out((#[trigger] old(missiles)@[i])@),
    ensures
        final(missiles)@.len() == old(missiles)@.len(),
        forall|i: int| 0 <= i < old(missiles)@.len() ==>
            (#[trigger] final(missiles)@[i])@ == stepped_missile(old(missiles)@[i]@),
        forall|i: int| 0 <= i < final(missiles)@.len() ==> projectile_wf((#[trigger] final(missiles)@[i])@),
{
    let ghost ms0 = missiles@;
    let mut i: usize = 0;
    while i < missiles.len()
        invariant
            i <= ms0.len(),
            missiles@.len() == ms0.len(),
            forall|k: int| 0 <= k < ms0.len() ==> projectile_wf((#[trigger] ms0[k])@),
            forall|k: int| 0 <= k < ms0.len() ==> !missile_out((#[trigger] ms0[k])@),
            forall|k: int| i <= k < ms0.len() ==> missiles@[k] == ms0[k],
            forall|k: int| 0 <= k < i ==> (#[trigger] missiles@[k])@ == stepped_missile(ms0[k]@),
            forall|k: int| 0 <= k < i ==> projectile_wf((#[trigger] missiles@[k])@),
        decreases ms0.len() - i,
    {
        proof {
            assert(missiles@[i as int] == ms0[i as int]);
            assert(projectile_wf(ms0[i as int]@));
            assert(!missile_out(ms0[i as int]@));
        }
        let m = missiles[i];
        let s = sin_milli(m.rotation);
        let c = cos_milli(m.rotation);
        let mut m2 = m;
        m2.position.x = m.position.x - scale_milli(MISSILE_SPEED, s);
        m2.position.y = m.position.y + scale_milli(MISSILE_SPEED, c);
        missiles[i] = m2;
        i = i + 1;
    }
}

/// How many random draws the spawner makes before giving up for the
/// frame.
pub const SPAWN_TRIES: u32 = 64;

/// The difficulty after a clock reading: once the interval has run
/// out, the asteroid ceiling grows by one and the speed ceiling by a
/// degree per frame, and the interval restarts. The ceilings stop at
/// the edge of their machine types.
pub open spec fn ramped(d: DifficultyV, now: int) -> DifficultyV {
    if now - d.last_ramp_ms > d.ramp_interval_ms {
        DifficultyV {
            max_asteroids: if d.max_asteroids < u32::MAX { d.max_asteroids + 1 } else { d.max_asteroids },
            max_asteroid_speed: if d.max_asteroid_speed + 10 <= i32::MAX {
                d.max_asteroid_speed + 10
            } else {
                d.max_asteroid_speed
            },
            last_ramp_ms: now,
            ramp_interval_ms: d.ramp_interval_ms,
        }
    } else {
        d
    }
}

pub fn ramp_difficulty(d: &mut Difficulty, now_ms: u64)
    requires
        old(d)@.last_ramp_ms <= now_ms,
    ensures
        final(d)@ == ramped(old(d)@, now_ms as int),
{
    if now_ms - d.last_ramp_ms > d.ramp_interval_ms {
        d.last_ramp_ms = now_ms;
        if d.max_asteroids < u32::MAX {
            d.max_asteroids = d.max_asteroids + 1;
        }
        if d.max_asteroid_speed <= i32::MAX - 10 {
            d.max_asteroid_speed = d.max_asteroid_speed + 10;
        }
    }
    proof {
        assert(final(d)@ =~= ramped(old(d)@, now_ms as int));
    }
}

/// The blink timer after a clock reading: the prompt flips once a
/// second.
pub open spec fn blinked(b: BlinkV, now: int) -> BlinkV {
    if now - b.last_toggle_ms > 1000 {
        BlinkV { last_toggle_ms: now, display_text: !b.display_text }
    } else {
        b
    }
}

pub fn step_blink(b: &mut BlinkTimer, now_ms: u64)
    requires
        old(b)@.last_toggle_ms <= now_ms,
    ensures
        final(b)@ == blinked(old(b)@, now_ms as int),
{
    if now_ms - b.last_toggle_ms > 1000 {
        b.display_text = !b.display_text;
        b.last_toggle_ms = now_ms;
    }
    proof {
        assert(final(b)@ =~= blinked(old(b)@, now_ms as int));
    }
}

/// What the spawner promises of an asteroid it adds: full-size, not
/// a fragment, with the asked-for vertex count, on a clear spawn
/// point.
pub open spec fn spawned_ok(a: AsteroidV, p: PlayerV, asts: Seq<AsteroidV>, points: int) -> bool {
    &&& asteroid_wf(a)
    &&& !a.fragment
    &&& a.num_points == points
    &&& a.rotation == 0
    &&& 160 <= a.size < 320
    &&& spawn_point_ok(a.position, p, asts)
}

/// While the field holds fewer asteroids than the difficulty allows,
/// try to spawn one more on a clear point. Returns whether one was
/// added; a frame may pass without a spawn when no clear point turns
/// up, but never when no draw can fail: an empty field below the
/// ceiling with the ship beyond the draw window owes a spawn.
pub fn spawn_asteroid_if_needed(
    player: &Player,
    asteroids: &mut Vec<Asteroid>,
    max_asteroids: u32,
    num_points: u32,
) -> (added: bool)
    requires
        player_wf(player@),
        forall|i: int| 0 <= i < old(asteroids)@.len() ==> asteroid_wf((#[trigger] old(asteroids)@[i])@),
        1 <= num_points <= 360,
    ensures
        forall|i: int| 0 <= i < final(asteroids)@.len() ==> asteroid_wf((#[trigger] final(asteroids)@[i])@),
        !added ==> final(asteroids)@ == old(asteroids)@,
        added ==> {
            &&& old(asteroids)@.len() < max_asteroids
            &&& final(asteroids)@.len() == old(asteroids)@.len() + 1
            &&& forall|i: int| 0 <= i < old(asteroids)@.len()
                ==> final(asteroids)@[i] == old(asteroids)@[i]
            &&& spawned_ok(
                final(asteroids)@.last()@,
                player@,
                asteroids_v(old(asteroids)@),
                num_points as int,
            )
        },
        old(asteroids)@.len() >= max_asteroids ==> !added,
        old(asteroids)@.len() == 0 && max_asteroids >= 1 && player_outside_draw(player@)
            ==> added,
{
    if asteroids.len() < max_asteroids as usize {
        match new_point(player, asteroids, SPAWN_TRIES) {
            Option::Some(pt) => {
                let a = generate_asteroid(pt, num_points, ASTEROID_MIN_SIZE, ASTEROID_MAX_SIZE, false);
                asteroids.push(a);
                true
            }
            Option::None => false,
        }
    } else {
        false
    }
}

/// One collision pass of a frame: sweep the volley over every
/// asteroid in field order, flag and score every overlap, cull the
/// asteroids that were struck, and let each strike on a full-size
/// asteroid add a pair of fragments after the survivors.
pub fn resolve_missile_strikes(
    asteroids: &mut Vec<Asteroid>,
    missiles: &mut Vec<Projectile>,
    score: &mut u32,
)
    requires
        forall|i: int| 0 <= i < old(asteroids)@.len() ==> asteroid_wf((#[trigger] old(asteroids)@[i])@),
        forall|i: int| 0 <= i < old(asteroids)@.len() ==> stepped_ast_pos_ok((#[trigger] old(asteroids)@[i])@),
        forall|i: int| 0 <= i < old(missiles)@.len() ==> projectile_wf((#[trigger] old(missiles)@[i])@),
        *old(score) + old(missiles)@.len() * old(asteroids)@.len() <= u32::MAX,
    ensures
        final(missiles)@.len() == old(missiles)@.len(),
        forall|i: int| 0 <= i < old(missiles)@.len() ==>
            (#[trigger] final(missiles)@[i])@
                == missile_flag_all(old(missiles)@[i]@, asteroids_v(old(asteroids)@)),
        forall|i: int| 0 <= i < final(missiles)@.len() ==> projectile_wf((#[trigger] final(missiles)@[i])@),
        *final(score) == *old(score)
            + total_hits(missiles_v(old(missiles)@), asteroids_v(old(asteroids)@)),
        asteroids_v(final(asteroids)@).len()
            == surviving_asteroids(missiles_v(old(missiles)@), asteroids_v(old(asteroids)@)).len()
                + frag_points(missiles_v(old(missiles)@), asteroids_v(old(asteroids)@)).len(),
        asteroids_v(final(asteroids)@).take(
            surviving_asteroids(missiles_v(old(missiles)@), asteroids_v(old(asteroids)@)).len() as int,
        ) == surviving_asteroids(missiles_v(old(missiles)@), asteroids_v(old(asteroids)@)),
        forall|k: int|
            surviving_asteroids(missiles_v(old(missiles)@), asteroids_v(old(asteroids)@)).len() <= k
                < asteroids_v(final(asteroids)@).len() ==> {
                let f = #[trigger] asteroids_v(final(asteroids)@)[k];
                let surv_len = surviving_asteroids(
                    missiles_v(old(missiles)@),
                    asteroids_v(old(asteroids)@),
                ).len();
                &&& asteroid_wf(f)
                &&& f.fragment
                &&& f.rotation == 0
                &&& f.num_points == 12
                &&& 80 <= f.size < 160
                &&& f.position == frag_points(
                    missiles_v(old(missiles)@),
                    asteroids_v(old(asteroids)@),
                )[k - surv_len]
            },
        forall|k: int| 0 <= k < final(asteroids)@.len() ==> asteroid_wf((#[trigger] final(asteroids)@[k])@),
{
    let ghost ms0 = missiles_v(missiles@);
    let ghost as0 = asteroids_v(asteroids@);
    let ghost s0 = *score;
    let ghost pred = |a: AsteroidV| !any_hit(ms0, a);
    let mut fragments: Vec<Asteroid> = Vec::new();
    let mut i: usize = 0;
    let ghost mut j: int = 0;
    while i < asteroids.len()
        invariant
            0 <= j <= as0.len(),
            i as int == as0.take(j).filter(pred).len(),
            i <= asteroids@.len(),
            pred == (|a: AsteroidV| !any_hit(ms0, a)),
            ms0 == missiles_v(old(missiles)@),
            as0 == asteroids_v(old(asteroids)@),
            asteroids_v(asteroids@) =~= as0.take(j).filter(pred) + as0.skip(j),
            forall|k: int| 0 <= k < as0.len() ==> asteroid_wf(#[trigger] as0[k]),
            forall|k: int| 0 <= k < as0.len() ==> stepped_ast_pos_ok(#[trigger] as0[k]),
            forall|k: int| 0 <= k < asteroids@.len() ==> asteroid_wf((#[trigger] asteroids@[k])@),
            missiles@.len() == ms0.len(),
            forall|k: int| 0 <= k < ms0.len() ==> {
                let m1 = (#[trigger] missiles@[k])@;
                m1.position == ms0[k].position && m1.rotation == ms0[k].rotation
                    && m1.hit == missile_flag_all(ms0[k], as0.take(j)).hit
            },
            forall|k: int| 0 <= k < missiles@.len() ==> projectile_wf((#[trigger] missiles@[k])@),
            s0 + ms0.len() * as0.len() <= u32::MAX,
            *score == s0 + total_hits(ms0, as0.take(j)),
            fragments@.len() == frag_points(ms0, as0.take(j)).len(),
            forall|k: int| 0 <= k < fragments@.len() ==> {
                let f = (#[trigger] fragments@[k])@;
                &&& asteroid_wf(f)
                &&& f.fragment
                &&& f.rotation == 0
                &&& f.num_points == 12
                &&& 80 <= f.size < 160
                &&& f.position == frag_points(ms0, as0.take(j))[k]
            },
        decreases as0.len() - j,
    {
        proof {
            assert(asteroids_v(asteroids@)[i as int] == as0.skip(j)[0]);
            assert(as0.skip(j)[0] == as0[j]);
            assert(asteroids@[i as int]@ == as0[j]);
            lemma_hit_count_bounds(ms0, as0[j]);
            lemma_total_hits_bounds(ms0, as0.take(j));
            assert(ms0.len() * j + ms0.len() == ms0.len() * (j + 1)) by (nonlinear_arith);
            assert(ms0.len() * (j + 1) <= ms0.len() * as0.len()) by (nonlinear_arith)
                requires j + 1 <= as0.len() && 0 <= ms0.len();
            assert(*score + missiles@.len() <= u32::MAX);
        }
        let ghost m_pre = missiles@;
        let ghost f_pre = fragments@;
        let ghost score_pre = *score;
        let hit = has_missile_hit_asteroid(missiles, &asteroids[i], score, &mut fragments);
        proof {
            assert(missiles_v(m_pre).len() == ms0.len());
            assert(forall|k: int| 0 <= k < ms0.len() ==>
                (#[trigger] missiles_v(m_pre)[k]).position == ms0[k].position);
            lemma_hit_count_positions(missiles_v(m_pre), ms0, as0[j]);
            lemma_total_hits_take_step(ms0, as0, j);
            lemma_frag_points_take_step(ms0, as0, j);
            // the flags after this asteroid are the flags over the prefix
            // extended by one
            assert forall|k: int| 0 <= k < ms0.len() implies {
                let m1 = (#[trigger] missiles@[k])@;
                m1.position == ms0[k].position && m1.rotation == ms0[k].rotation
                    && m1.hit == missile_flag_all(ms0[k], as0.take(j + 1)).hit
            } by {
                assert(missiles@[k]@.hit
                    == (m_pre[k]@.hit || missile_hits(m_pre[k]@, as0[j])));
                assert(missile_hits(m_pre[k]@, as0[j]) == missile_hits(ms0[k], as0[j]));
                let old_flag = missile_flag_all(ms0[k], as0.take(j)).hit;
                let new_flag = missile_flag_all(ms0[k], as0.take(j + 1)).hit;
                if old_flag {
                    if !ms0[k].hit {
                        let l = choose|l: int|
                            0 <= l < j && #[trigger] missile_hits(ms0[k], as0.take(j)[l]);
                        assert(missile_hits(ms0[k], as0.take(j + 1)[l]));
                    }
                    assert(new_flag);
                } else if missile_hits(ms0[k], as0[j]) {
                    assert(missile_hits(ms0[k], as0.take(j + 1)[j]));
                    assert(new_flag);
                } else {
                    if new_flag && !ms0[k].hit {
                        let l = choose|l: int|
                            0 <= l < j + 1 && #[trigger] missile_hits(ms0[k], as0.take(j + 1)[l]);
                        if l < j {
                            assert(missile_hits(ms0[k], as0.take(j)[l]));
                        }
                        assert(false);
                    }
                }
            };
            assert forall|k: int| 0 <= k < missiles@.len() implies
                projectile_wf((#[trigger] missiles@[k])@) by {
                assert(projectile_wf(m_pre[k]@));
                assert(missiles@[k]@.position == m_pre[k]@.position);
                assert(missiles@[k]@.rotation == m_pre[k]@.rotation);
            };
            // the fragment list grew by exactly this asteroid's pairs
            let fp_old = frag_points(ms0, as0.take(j));
            let fp_new = frag_points(ms0, as0.take(j + 1));
            let seg = frag_points_for(ms0, as0[j]);
            assert(fp_new == fp_old + seg);
            assert(fragments@.len() == fp_new.len());
            assert forall|k: int| 0 <= k < fragments@.len() implies {
                let f = (#[trigger] fragments@[k])@;
                &&& asteroid_wf(f)
                &&& f.fragment
                &&& f.rotation == 0
                &&& f.num_points == 12
                &&& 80 <= f.size < 160
                &&& f.position == fp_new[k]
            } by {
                if k < f_pre.len() {
                    assert(fragments@[k] == f_pre[k]);
                    assert(fp_new[k] == fp_old[k]);
                } else {
                    let t = k - f_pre.len();
                    assert(fp_new[k] == seg[t]);
                    if t % 2 == 0 {
                        assert(seg[t] == frag_left(as0[j]));
                    } else {
                        assert(seg[t] == frag_right(as0[j]));
                    }
                    assert(fragments@[k]@.position == seg[t]);
                }
            };
        }
        if hit {
            let ghost pre = asteroids@;
            asteroids.remove(i);
            proof {
                assert(!pred(as0[j]));
                reveal_with_fuel(Seq::filter, 2);
                assert(as0.take(j + 1) =~= as0.take(j) + seq![as0[j]]);
                assert(seq![as0[j]].drop_last() =~= Seq::<AsteroidV>::empty());
                assert(seq![as0[j]].filter(pred) =~= Seq::<AsteroidV>::empty());
                Seq::filter_distributes_over_add(as0.take(j), seq![as0[j]], pred);
                assert(as0.take(j + 1).filter(pred) =~= as0.take(j).filter(pred));
                assert(as0.skip(j) =~= seq![as0[j]] + as0.skip(j + 1));
                assert(asteroids_v(asteroids@) =~= asteroids_v(pre).remove(i as int));
                assert(asteroids_v(pre).remove(i as int)
                    =~= as0.take(j).filter(pred) + as0.skip(j + 1));
                assert(asteroids_v(asteroids@)
                    =~= as0.take(j + 1).filter(pred) + as0.skip(j + 1));
            }
        } else {
            i = i + 1;
            proof {
                assert(pred(as0[j]));
                reveal_with_fuel(Seq::filter, 2);
                assert(as0.take(j + 1) =~= as0.take(j) + seq![as0[j]]);
                assert(seq![as0[j]].drop_last() =~= Seq::<AsteroidV>::empty());
                assert(seq![as0[j]].filter(pred) =~= seq![as0[j]]);
                Seq::filter_distributes_over_add(as0.take(j), seq![as0[j]], pred);
                assert(as0.skip(j) =~= seq![as0[j]] + as0.skip(j + 1));
                assert(asteroids_v(asteroids@)
                    =~= as0.take(j + 1).filter(pred) + as0.skip(j + 1));
            }
        }
        proof {
            j = j + 1;
        }
    }
    proof {
        assert(j == as0.len());
        assert(as0.take(j) =~= as0);
        assert(as0.skip(j) =~= Seq::<AsteroidV>::empty());
        assert(asteroids_v(asteroids@) =~= surviving_asteroids(ms0, as0));
    }
    let ghost surv_vec = asteroids@;
    let ghost fr = fragments@;
    asteroids.append(&mut fragments);
    proof {
        let surv = surviving_asteroids(ms0, as0);
        assert(asteroids@ == surv_vec + fr);
        assert(asteroids_v(asteroids@) =~= asteroids_v(surv_vec) + asteroids_v(fr));
        assert(asteroids_v(surv_vec) == surviving_asteroids(ms0, as0));
        assert(asteroids_v(fr).len() == fr.len());
        assert(asteroids_v(asteroids@).take(surv.len() as int) =~= surv);
        assert forall|k: int| surv.len() <= k < asteroids_v(asteroids@).len() implies {
            let f = #[trigger] asteroids_v(asteroids@)[k];
            &&& asteroid_wf(f)
            &&& f.fragment
            &&& f.rotation == 0
            &&& f.num_points == 12
            &&& 80 <= f.size < 160
            &&& f.position == frag_points(ms0, as0)[k - surv.len()]
        } by {
            let t = k - surv.len();
            assert(asteroids_v(asteroids@)[k] == fr[t]@);
            assert(fr[t]@.position == frag_points(ms0, as0.take(j))[t]);
        };
    }
}

/// The menu (and attract) animation frame: asteroids wrap, spin and
/// drift, one may spawn up to the difficulty ceiling, and the prompt
/// blinks once a second. Player, score and phase do not move.
pub fn menu_update(model: &mut GameModel, now_ms: u64)
    requires
        model_wf(old(model)@),
        old(model)@.blink.last_toggle_ms <= now_ms,
    ensures
        model_wf(final(model)@),
        final(model)@.player == old(model)@.player,
        final(model)@.last_event == old(model)@.last_event,
        final(model)@.game_state == old(model)@.game_state,
        final(model)@.difficulty == old(model)@.difficulty,
        final(model)@.blink == blinked(old(model)@.blink, now_ms as int),
        ({
            let stepped = old(model)@.asteroid.map_values(|a: AsteroidV| stepped_asteroid(a));
            &&& final(model)@.asteroid.len() >= stepped.len()
            &&& final(model)@.asteroid.take(stepped.len() as int) == stepped
            &&& (final(model)@.asteroid.len() == stepped.len() || (
                final(model)@.asteroid.len() == stepped.len() + 1
                    && stepped.len() < old(model)@.difficulty.max_asteroids
                    && spawned_ok(final(model)@.asteroid.last(), old(model)@.player, stepped, 12)
            ))
            &&& (stepped.len() >= old(model)@.difficulty.max_asteroids
                ==> final(model)@.asteroid.len() == stepped.len())
            &&& (old(model)@.asteroid.len() == 0
                && old(model)@.difficulty.max_asteroids >= 1
                && player_outside_draw(old(model)@.player)
                ==> final(model)@.asteroid.len() == 1)
        }),
{
    let ghost g0 = model@;
    proof {
        assert forall|i: int| 0 <= i < model.asteroid@.len()
            implies asteroid_wf((#[trigger] model.asteroid@[i])@) by {
            assert(g0.asteroid[i] == model.asteroid@[i]@);
            assert(asteroid_wf(g0.asteroid[i]));
        };
    }
    step_asteroids(&mut model.asteroid);
    proof {
        assert(asteroids_v(model.asteroid@)
            =~= g0.asteroid.map_values(|a: AsteroidV| stepped_asteroid(a)));
    }
    let ghost pre_spawn = model.asteroid@;
    let added = spawn_asteroid_if_needed(
        &model.player,
        &mut model.asteroid,
        model.difficulty.max_asteroids,
        12,
    );
    step_blink(&mut model.blink, now_ms);
    proof {
        let stepped = g0.asteroid.map_values(|a: AsteroidV| stepped_asteroid(a));
        if added {
            assert(model@.asteroid =~= asteroids_v(pre_spawn).push(model.asteroid@.last()@));
            assert(model@.asteroid.take(stepped.len() as int) =~= stepped);
        } else {
            assert(model@.asteroid =~= stepped);
            assert(model@.asteroid.take(stepped.len() as int) =~= stepped);
        }
        assert(model@.player =~= g0.player);
    }
}

/// What one frame of play promises of the missiles: the volley is
/// flagged against the stepped field, culled at the edges, and flown
/// one step forward.
pub open spec fn frame_missiles(ms: Seq<ProjectileV>, as1: Seq<AsteroidV>) -> Seq<ProjectileV> {
    culled_missiles(ms.map_values(|m: ProjectileV| missile_flag_all(m, as1)))
        .map_values(|m: ProjectileV| stepped_missile(m))
}

/// One frame of play. In order, as the host's update callback would
/// run it: the difficulty may ramp; a ship overlapping an asteroid
/// ends the round (the frame still completes); the ship turns, wraps
/// and glides; asteroids wrap, spin and drift; missile strikes score,
/// cull asteroids and spawn fragment pairs; spent and escaped
/// missiles leave and the rest fly on; and the spawner may add one
/// asteroid up to the ramped ceiling.
pub fn idle_update(model: &mut GameModel, now_ms: u64)
    requires
        model_wf(old(model)@),
        old(model)@.difficulty.last_ramp_ms <= now_ms,
        old(model)@.player.score + old(model)@.player.missile.len() * old(model)@.asteroid.len()
            <= u32::MAX,
    ensures
        model_wf(final(model)@),
        final(model)@.last_event == old(model)@.last_event,
        final(model)@.blink == old(model)@.blink,
        final(model)@.difficulty == ramped(old(model)@.difficulty, now_ms as int),
        final(model)@.game_state == if ship_crashed(old(model)@.player, old(model)@.asteroid) {
            State::GameOver
        } else {
            old(model)@.game_state
        },
        ({
            let p1 = stepped_ship(old(model)@.player);
            let as1 = old(model)@.asteroid.map_values(|a: AsteroidV| stepped_asteroid(a));
            let ms0 = old(model)@.player.missile;
            &&& final(model)@.player.position == p1.position
            &&& final(model)@.player.rotation == p1.rotation
            &&& final(model)@.player.rotation_inc == p1.rotation_inc
            &&& final(model)@.player.thrust == p1.thrust
            &&& final(model)@.player.thrust_rotation == p1.thrust_rotation
            &&& final(model)@.player.thrust_counter == p1.thrust_counter
            &&& final(model)@.player.score == old(model)@.player.score + total_hits(ms0, as1)
            &&& final(model)@.player.missile == frame_missiles(ms0, as1)
        }),
        ({
            let as1 = old(model)@.asteroid.map_values(|a: AsteroidV| stepped_asteroid(a));
            let ms0 = old(model)@.player.missile;
            let surv = surviving_asteroids(ms0, as1);
            let fpts = frag_points(ms0, as1);
            let base = surv.len() + fpts.len();
            &&& final(model)@.asteroid.len() >= base
            &&& final(model)@.asteroid.take(surv.len() as int) == surv
            &&& forall|k: int| surv.len() <= k < base ==> {
                let f = #[trigger] final(model)@.asteroid[k];
                &&& asteroid_wf(f)
                &&& f.fragment
                &&& f.rotation == 0
                &&& f.num_points == 12
                &&& 80 <= f.size < 160
                &&& f.position == fpts[k - surv.len()]
            }
            &&& (final(model)@.asteroid.len() == base || (
                final(model)@.asteroid.len() == base + 1
                    && base < ramped(old(model)@.difficulty, now_ms as int).max_asteroids
                    && spawned_ok(
                    final(model)@.asteroid.last(),
                    final(model)@.player,
                    final(model)@.asteroid.take(base as int),
                    8,
                )
            ))
            &&& (base >= ramped(old(model)@.difficulty, now_ms as int).max_asteroids
                ==> final(model)@.asteroid.len() == base)
            &&& (old(model)@.asteroid.len() == 0
                && ramped(old(model)@.difficulty, now_ms as int).max_asteroids >= 1
                && player_outside_draw(stepped_ship(old(model)@.player))
                ==> final(model)@.asteroid.len() == 1)
        }),
{
    let ghost g0 = model@;
    proof {
        assert forall|i: int| 0 <= i < model.asteroid@.len()
            implies asteroid_wf((#[trigger] model.asteroid@[i])@) by {
            assert(g0.asteroid[i] == model.asteroid@[i]@);
            assert(asteroid_wf(g0.asteroid[i]));
        };
        assert forall|i: int| 0 <= i < model.player.missile@.len()
            implies projectile_wf((#[trigger] model.player.missile@[i])@) by {
            assert(g0.player.missile[i] == model.player.missile@[i]@);
            assert(projectile_wf(g0.player.missile[i]));
        };
    }
    ramp_difficulty(&mut model.difficulty, now_ms);
    let crashed = has_ship_hit_asteroid(&model.player, &model.asteroid);
    if crashed {
        model.game_state = State::GameOver;
    }
    proof {
        assert(asteroids_v(model.asteroid@) =~= g0.asteroid);
    }
    step_ship(&mut model.player);
    step_asteroids(&mut model.asteroid);
    let ghost as1 = g0.asteroid.map_values(|a: AsteroidV| stepped_asteroid(a));
    let ghost ms0 = g0.player.missile;
    proof {
        assert(asteroids_v(model.asteroid@) =~= as1);
        assert(model.player@.missile == g0.player.missile);
        assert(missiles_v(model.player.missile@) =~= ms0);
        assert(model.player@.score == g0.player.score);
        assert forall|i: int| 0 <= i < model.player.missile@.len()
            implies projectile_wf((#[trigger] model.player.missile@[i])@) by {
            assert(model.player.missile@[i]@ == missiles_v(model.player.missile@)[i]);
            assert(missiles_v(model.player.missile@)[i] == ms0[i]);
            assert(projectile_wf(g0.player.missile[i]));
        };
        assert(model.player.score + model.player.missile@.len() * model.asteroid@.len()
            <= u32::MAX);
    }
    resolve_missile_strikes(
        &mut model.asteroid,
        &mut model.player.missile,
        &mut model.player.score,
    );
    proof {
        assert(missiles_v(model.player.missile@)
            =~= ms0.map_values(|m: ProjectileV| missile_flag_all(m, as1)));
        assert(model.player@.score == g0.player.score + total_hits(ms0, as1));
    }
    let ghost surv = surviving_asteroids(ms0, as1);
    let ghost fpts = frag_points(ms0, as1);
    cull_missiles(&mut model.player.missile);
    let ghost culled = culled_missiles(ms0.map_values(|m: ProjectileV| missile_flag_all(m, as1)));
    proof {
        assert(missiles_v(model.player.missile@) == culled);
    }
    step_missiles(&mut model.player.missile);
    proof {
        assert(missiles_v(model.player.missile@)
            =~= culled.map_values(|m: ProjectileV| stepped_missile(m)));
        assert(player_wf(model.player@));
    }
    let ghost pre_spawn = model.asteroid@;
    let added = spawn_asteroid_if_needed(
        &model.player,
        &mut model.asteroid,
        model.difficulty.max_asteroids,
        8,
    );
    proof {
        let base = surv.len() + fpts.len();
        assert(asteroids_v(pre_spawn).len() == base);
        assert(asteroids_v(pre_spawn).take(surv.len() as int) == surv);
        if added {
            assert(model@.asteroid =~= asteroids_v(pre_spawn).push(model.asteroid@.last()@));
            assert(model@.asteroid.take(surv.len() as int) =~= surv);
            assert(model@.asteroid.take(base as int) =~= asteroids_v(pre_spawn));
        } else {
            assert(model@.asteroid =~= asteroids_v(pre_spawn));
            assert(model@.asteroid.take(surv.len() as int) =~= surv);
            assert(model@.asteroid.take(base as int) =~= asteroids_v(pre_spawn));
        }
        assert(final(model)@.player.missile == frame_missiles(ms0, as1));
    }
}

/// A frame on the game-over screen changes nothing: the model waits
/// for a key.
pub fn gameover_update(model: &mut GameModel)
    ensures
        final(model)@ == old(model)@,
{
}

/// One frame of the whole program, dispatched on the phase.
pub fn update(model: &mut GameModel, now_ms: u64)
    requires
        model_wf(old(model)@),
        old(model)@.difficulty.last_ramp_ms <= now_ms,
        old(model)@.blink.last_toggle_ms <= now_ms,
        old(model)@.game_state == State::Idle
            ==> old(model)@.player.score
                + old(model)@.player.missile.len() * old(model)@.asteroid.len() <= u32::MAX,
    ensures
        model_wf(final(model)@),
        old(model)@.game_state == State::GameOver ==> final(model)@ == old(model)@,
        old(model)@.game_state == State::Menu ==> {
            &&& final(model)@.game_state == State::Menu
            &&& final(model)@.player == old(model)@.player
            &&& final(model)@.difficulty == old(model)@.difficulty
            &&& final(model)@.blink == blinked(old(model)@.blink, now_ms as int)
        },
        old(model)@.game_state == State::Idle ==> {
            &&& final(model)@.difficulty == ramped(old(model)@.difficulty, now_ms as int)
            &&& final(model)@.game_state == if ship_crashed(
                old(model)@.player,
                old(model)@.asteroid,
            ) {
                State::GameOver
            } else {
                State::Idle
            }
            &&& final(model)@.player.score == old(model)@.player.score + total_hits(
                old(model)@.player.missile,
                old(model)@.asteroid.map_values(|a: AsteroidV| stepped_asteroid(a)),
            )
        },
{
    match model.game_state {
        State::Idle => idle_update(model, now_ms),
        State::GameOver => gameover_update(model),
        State::Menu => menu_update(model, now_ms),
    }
}

} // verus!
