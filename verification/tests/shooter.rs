use arcade_core::collision::{
    has_missile_hit_asteroid, has_missile_hit_edge, has_ship_hit_asteroid,
};
use arcade_core::entities::{Asteroid, Player, Projectile};
use arcade_core::events::{InputEvent, KeyInput, State, StateEvents};
use arcade_core::game::{
    cull_missiles, fire_missile, handle_event, idle_update, initial_model, menu_update,
    ramp_difficulty, reset, resolve_missile_strikes, spawn_asteroid_if_needed, state_idle,
    step_asteroid, step_blink, step_missiles, step_ship, update, window_event, BlinkTimer,
};
use arcade_core::geom::Vec2;
use arcade_core::spawn::{generate_asteroid, new_point};

fn plain_asteroid(x: i32, y: i32, size: i32, fragment: bool) -> Asteroid {
    Asteroid {
        position: Vec2 { x, y },
        rotation: 0,
        rotation_speed: 10,
        size,
        num_points: 3,
        fragment,
        thickness: if fragment { 8 } else { 20 },
        thrust_rotation: 0,
        radii: vec![size / 2, size / 2, size / 2, size / 2],
    }
}

fn armed_player(x: i32, y: i32) -> Player {
    Player {
        position: Vec2 { x, y },
        rotation: 0,
        rotation_inc: 0,
        score: 0,
        thrust: false,
        thrust_rotation: 0,
        thrust_counter: 0,
        missile: Vec::new(),
    }
}

#[test]
fn fresh_model_starts_in_the_menu() {
    let m = initial_model(42);
    assert!(matches!(m.game_state, State::Menu));
    assert_eq!(m.player.score, 0);
    assert_eq!(m.asteroid.len(), 0);
    assert_eq!(m.difficulty.max_asteroids, 5);
    assert_eq!(m.difficulty.max_asteroid_speed, 40);
    assert_eq!(m.difficulty.last_ramp_ms, 42);
    assert!(m.blink.display_text);
}

#[test]
fn reset_clears_the_round() {
    let mut m = initial_model(0);
    m.player.score = 9;
    m.player.rotation = 1234;
    m.asteroid.push(plain_asteroid(0, 0, 160, false));
    m.difficulty.max_asteroids = 11;
    reset(&mut m);
    assert!(matches!(m.game_state, State::Idle));
    assert_eq!(m.player.score, 0);
    assert_eq!(m.player.rotation, 0);
    assert_eq!(m.asteroid.len(), 0);
    assert_eq!(m.difficulty.max_asteroids, 5);
}

#[test]
fn firing_appends_a_missile_at_the_ship() {
    let mut p = armed_player(100, -200);
    p.rotation = 450;
    fire_missile(&mut p);
    assert_eq!(p.missile.len(), 1);
    assert!(!p.missile[0].hit);
    assert_eq!(p.missile[0].position, Vec2 { x: 100, y: -200 });
    assert_eq!(p.missile[0].rotation, 450);
}

#[test]
fn events_drive_the_player_state_machine() {
    let mut p = armed_player(0, 0);
    handle_event(&mut p, StateEvents::LeftKeyPress);
    assert_eq!(p.rotation_inc, 36);
    handle_event(&mut p, StateEvents::LeftKeyRelease);
    assert_eq!(p.rotation_inc, 0);
    handle_event(&mut p, StateEvents::RightKeyPress);
    assert_eq!(p.rotation_inc, -36);
    handle_event(&mut p, StateEvents::UpKeyPress);
    assert!(p.thrust);
    handle_event(&mut p, StateEvents::UpKeyRelease);
    assert!(!p.thrust);
    handle_event(&mut p, StateEvents::SpaceKeyPress);
    assert_eq!(p.missile.len(), 1);
    handle_event(&mut p, StateEvents::NoneKeyPress);
    assert_eq!(p.missile.len(), 1);
}

#[test]
fn motion_machine_does_not_fire() {
    let mut p = armed_player(0, 0);
    state_idle(&mut p, StateEvents::SpaceKeyPress);
    assert_eq!(p.missile.len(), 0);
    state_idle(&mut p, StateEvents::LeftKeyPress);
    assert_eq!(p.rotation_inc, 36);
}

#[test]
fn repeated_events_are_ignored_in_play() {
    let mut m = initial_model(0);
    reset(&mut m);
    window_event(&mut m, InputEvent::Pressed(KeyInput::Space));
    assert_eq!(m.player.missile.len(), 1);
    window_event(&mut m, InputEvent::Pressed(KeyInput::Space));
    assert_eq!(m.player.missile.len(), 1);
    window_event(&mut m, InputEvent::Released(KeyInput::Space));
    window_event(&mut m, InputEvent::Pressed(KeyInput::Space));
    assert_eq!(m.player.missile.len(), 2);
}

#[test]
fn any_key_leaves_the_menu() {
    let mut m = initial_model(0);
    window_event(&mut m, InputEvent::Released(KeyInput::Up));
    assert!(matches!(m.game_state, State::Menu));
    window_event(&mut m, InputEvent::Pressed(KeyInput::Up));
    assert!(matches!(m.game_state, State::Idle));
}

#[test]
fn idle_ship_glides_up_at_full_ease() {
    let mut p = armed_player(0, 0);
    step_ship(&mut p);
    // full easing, heading straight up: 12 * 1000 * 1200 / 1000000
    assert_eq!(p.position, Vec2 { x: 0, y: 14 });
    assert_eq!(p.rotation, 0);
    assert_eq!(p.thrust_counter, 1);
}

#[test]
fn turning_ship_accumulates_rotation() {
    let mut p = armed_player(0, 0);
    p.rotation_inc = 36;
    step_ship(&mut p);
    assert_eq!(p.rotation, 36);
    step_ship(&mut p);
    assert_eq!(p.rotation, 72);
}

#[test]
fn asteroid_step_spins_and_drifts() {
    let mut a = plain_asteroid(0, 0, 160, false);
    step_asteroid(&mut a);
    assert_eq!(a.rotation, 10);
    // heading straight up: drift (0, 2)
    assert_eq!(a.position, Vec2 { x: 0, y: 2 });
}

#[test]
fn missiles_leave_at_the_edges_or_when_spent() {
    let outside = Projectile { hit: false, position: Vec2 { x: 1281, y: 0 }, rotation: 0 };
    let spent = Projectile { hit: true, position: Vec2 { x: 0, y: 0 }, rotation: 0 };
    let live = Projectile { hit: false, position: Vec2 { x: 0, y: 0 }, rotation: 0 };
    assert!(has_missile_hit_edge(&outside));
    assert!(has_missile_hit_edge(&spent));
    assert!(!has_missile_hit_edge(&live));
    let mut ms = vec![outside, spent, live];
    cull_missiles(&mut ms);
    assert_eq!(ms.len(), 1);
    step_missiles(&mut ms);
    assert_eq!(ms[0].position, Vec2 { x: 0, y: 32 });
}

#[test]
fn a_strike_scores_and_splits_the_asteroid() {
    let mut missiles = vec![Projectile { hit: false, position: Vec2 { x: 0, y: 0 }, rotation: 0 }];
    let target = plain_asteroid(0, 0, 160, false);
    let mut score: u32 = 5;
    let mut fragments: Vec<Asteroid> = Vec::new();
    let hit = has_missile_hit_asteroid(&mut missiles, &target, &mut score, &mut fragments);
    assert!(hit);
    assert_eq!(score, 6);
    assert!(missiles[0].hit);
    assert_eq!(fragments.len(), 2);
    assert_eq!(fragments[0].position, Vec2 { x: -80, y: 0 });
    assert_eq!(fragments[1].position, Vec2 { x: 80, y: 0 });
    assert!(fragments[0].fragment && fragments[1].fragment);
    assert!(fragments[0].size >= 80 && fragments[0].size < 160);
    assert_eq!(fragments[0].num_points, 12);
    assert_eq!(fragments[1].num_points, 12);
    assert_eq!(fragments[0].thickness, 8);
}

#[test]
fn fragments_do_not_split_again() {
    let mut missiles = vec![Projectile { hit: false, position: Vec2 { x: 0, y: 0 }, rotation: 0 }];
    let target = plain_asteroid(0, 0, 160, true);
    let mut score: u32 = 0;
    let mut fragments: Vec<Asteroid> = Vec::new();
    let hit = has_missile_hit_asteroid(&mut missiles, &target, &mut score, &mut fragments);
    assert!(hit);
    assert_eq!(score, 1);
    assert_eq!(fragments.len(), 0);
}

#[test]
fn a_miss_leaves_everything_alone() {
    let mut missiles = vec![Projectile { hit: false, position: Vec2 { x: 500, y: 500 }, rotation: 0 }];
    let target = plain_asteroid(0, 0, 160, false);
    let mut score: u32 = 0;
    let mut fragments: Vec<Asteroid> = Vec::new();
    let hit = has_missile_hit_asteroid(&mut missiles, &target, &mut score, &mut fragments);
    assert!(!hit);
    assert_eq!(score, 0);
    assert!(!missiles[0].hit);
    assert_eq!(fragments.len(), 0);
}

#[test]
fn the_collision_pass_culls_and_fragments() {
    let mut asteroids = vec![plain_asteroid(0, 0, 160, false), plain_asteroid(900, 900, 160, false)];
    let mut missiles = vec![Projectile { hit: false, position: Vec2 { x: 0, y: 0 }, rotation: 0 }];
    let mut score: u32 = 0;
    resolve_missile_strikes(&mut asteroids, &mut missiles, &mut score);
    assert_eq!(score, 1);
    assert!(missiles[0].hit);
    // the untouched asteroid survives, then the two fragments follow
    assert_eq!(asteroids.len(), 3);
    assert_eq!(asteroids[0].position, Vec2 { x: 900, y: 900 });
    assert!(asteroids[1].fragment && asteroids[2].fragment);
    assert_eq!(asteroids[1].position, Vec2 { x: -80, y: 0 });
    assert_eq!(asteroids[2].position, Vec2 { x: 80, y: 0 });
}

#[test]
fn the_nose_of_the_ship_crashes() {
    let p = armed_player(0, 0);
    // facing up, the nose probes (0, 65)
    let near = vec![plain_asteroid(0, 65, 160, false)];
    let far = vec![plain_asteroid(900, 900, 160, false)];
    assert!(has_ship_hit_asteroid(&p, &near));
    assert!(!has_ship_hit_asteroid(&p, &far));
}

#[test]
fn spawn_points_keep_their_clearances() {
    // with the ship parked in a corner every draw clears it
    let p = armed_player(1800, 1800);
    let none: Vec<Asteroid> = Vec::new();
    let q = new_point(&p, &none, 64).expect("an empty field always offers a point");
    assert!((-960..960).contains(&q.x));
    assert!((-640..640).contains(&q.y));
    assert!(q.x < 1800 - 320 && q.y < 1800 - 320);
}

#[test]
fn generated_asteroids_stay_in_their_ranges() {
    let a = generate_asteroid(Vec2 { x: 10, y: -10 }, 12, 160, 320, false);
    assert_eq!(a.position, Vec2 { x: 10, y: -10 });
    assert!(!a.fragment);
    assert_eq!(a.thickness, 20);
    assert_eq!(a.rotation, 0);
    assert!(a.size >= 160 && a.size < 320);
    assert!(a.rotation_speed >= -40 && a.rotation_speed < 40);
    assert_eq!(a.radii.len(), 13);
    assert_eq!(a.radii[12], a.radii[0]);
    let half = a.size / 2;
    for r in &a.radii {
        assert!(*r >= half - half / 5 && *r < half + half / 5);
    }
    let f = generate_asteroid(Vec2 { x: 0, y: 0 }, 12, 80, 160, true);
    assert!(f.fragment);
    assert_eq!(f.thickness, 8);
}

#[test]
fn the_spawner_respects_the_ceiling() {
    let p = armed_player(1800, 1800);
    let mut field: Vec<Asteroid> = Vec::new();
    assert!(!spawn_asteroid_if_needed(&p, &mut field, 0, 12));
    assert_eq!(field.len(), 0);
    assert!(spawn_asteroid_if_needed(&p, &mut field, 1, 12));
    assert_eq!(field.len(), 1);
    assert_eq!(field[0].num_points, 12);
    assert!(!field[0].fragment);
    assert!(!spawn_asteroid_if_needed(&p, &mut field, 1, 12));
    assert_eq!(field.len(), 1);
}

#[test]
fn the_difficulty_ramps_on_its_clock() {
    let mut m = initial_model(0);
    ramp_difficulty(&mut m.difficulty, 1000);
    assert_eq!(m.difficulty.max_asteroids, 5);
    ramp_difficulty(&mut m.difficulty, 6000);
    assert_eq!(m.difficulty.max_asteroids, 6);
    assert_eq!(m.difficulty.max_asteroid_speed, 50);
    assert_eq!(m.difficulty.last_ramp_ms, 6000);
    ramp_difficulty(&mut m.difficulty, 7000);
    assert_eq!(m.difficulty.max_asteroids, 6);
}

#[test]
fn the_menu_prompt_blinks_once_a_second() {
    let mut b = BlinkTimer { last_toggle_ms: 0, display_text: true };
    step_blink(&mut b, 900);
    assert!(b.display_text);
    step_blink(&mut b, 1001);
    assert!(!b.display_text);
    assert_eq!(b.last_toggle_ms, 1001);
}

#[test]
fn a_play_frame_scores_a_sure_strike() {
    let mut m = initial_model(0);
    reset(&mut m);
    // after its step the asteroid sits at (600, 602); the missile
    // probe is its centre shifted by half its size
    m.asteroid.push(plain_asteroid(600, 600, 160, true));
    m.player.missile.push(Projectile {
        hit: false,
        position: Vec2 { x: 592, y: 594 },
        rotation: 0,
    });
    idle_update(&mut m, 0);
    assert!(matches!(m.game_state, State::Idle));
    assert_eq!(m.player.score, 1);
    assert_eq!(m.player.missile.len(), 0);
}

#[test]
fn a_play_frame_ends_the_round_on_a_crash() {
    let mut m = initial_model(0);
    reset(&mut m);
    m.asteroid.push(plain_asteroid(0, 65, 160, true));
    idle_update(&mut m, 0);
    assert!(matches!(m.game_state, State::GameOver));
    // a game-over frame then freezes everything
    let score = m.player.score;
    update(&mut m, 1);
    assert_eq!(m.player.score, score);
    assert!(matches!(m.game_state, State::GameOver));
}

#[test]
fn an_all_clear_menu_frame_must_spawn() {
    // an empty field with the ship parked beyond the draw window
    // leaves the spawner no way to fail
    let mut m = initial_model(0);
    m.player.position = Vec2 { x: 1800, y: 1800 };
    menu_update(&mut m, 0);
    assert_eq!(m.asteroid.len(), 1);
    assert!(!m.asteroid[0].fragment);
    assert_eq!(m.asteroid[0].num_points, 12);
}

#[test]
fn the_menu_frame_only_animates() {
    let mut m = initial_model(0);
    m.asteroid.push(plain_asteroid(0, 0, 160, false));
    menu_update(&mut m, 2000);
    assert!(matches!(m.game_state, State::Menu));
    assert_eq!(m.player.score, 0);
    assert!(!m.blink.display_text);
    assert_eq!(m.asteroid[0].position, Vec2 { x: 0, y: 2 });
    assert!(m.asteroid.len() <= 5);
}
