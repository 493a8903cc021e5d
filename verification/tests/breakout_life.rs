use arcade_core::breakout::{
    handle_keypress, handle_keyrelease, new_breakout, update, window_event, PLAYER_SPEED,
};
use arcade_core::events::{InputEvent, KeyInput};
use arcade_core::geom::Vec2;
use arcade_core::life::{
    cell_col, cell_draw_x, cell_draw_y, cell_row, random_grid, update_loop, NUM_SQUARES,
};

#[test]
fn breakout_opens_centred() {
    let b = new_breakout();
    assert_eq!(b.player_pos, 0);
    assert_eq!(b.ball_pos, Vec2 { x: 0, y: 0 });
    assert_eq!(b.score, 0);
    assert!(!b.key_pressed);
    assert_eq!(b.ball_dir_x, 1);
    assert_eq!(b.ball_dir_y, -1);
}

#[test]
fn breakout_latches_one_key() {
    let mut b = new_breakout();
    handle_keypress(KeyInput::Left, &mut b);
    assert!(b.key_pressed);
    assert!(matches!(b.key_press, KeyInput::Left));
    // a repeat of the held key changes nothing
    handle_keypress(KeyInput::Left, &mut b);
    assert!(b.key_pressed);
    // releasing another key changes nothing
    handle_keyrelease(KeyInput::Right, &mut b);
    assert!(b.key_pressed);
    handle_keyrelease(KeyInput::Left, &mut b);
    assert!(!b.key_pressed);
    assert!(matches!(b.key_press, KeyInput::Up));
}

#[test]
fn raw_events_reach_the_key_latch() {
    let mut b = new_breakout();
    window_event(&mut b, InputEvent::Pressed(KeyInput::Right));
    assert!(b.key_pressed);
    assert!(matches!(b.key_press, KeyInput::Right));
    window_event(&mut b, InputEvent::Released(KeyInput::Right));
    assert!(!b.key_pressed);
}

#[test]
fn the_ball_flies_its_diagonal() {
    let mut b = new_breakout();
    update(&mut b);
    assert_eq!(b.ball_pos, Vec2 { x: 3, y: -3 });
    update(&mut b);
    assert_eq!(b.ball_pos, Vec2 { x: 6, y: -6 });
}

#[test]
fn the_paddle_follows_the_held_key() {
    let mut b = new_breakout();
    handle_keypress(KeyInput::Left, &mut b);
    update(&mut b);
    assert_eq!(b.player_pos, -PLAYER_SPEED);
    handle_keyrelease(KeyInput::Left, &mut b);
    handle_keypress(KeyInput::Right, &mut b);
    update(&mut b);
    update(&mut b);
    assert_eq!(b.player_pos, PLAYER_SPEED);
}

#[test]
fn the_ball_bounces_off_the_walls_and_roof() {
    let mut b = new_breakout();
    b.ball_pos = Vec2 { x: 638, y: 0 };
    update(&mut b);
    assert_eq!(b.ball_pos.x, 641);
    assert_eq!(b.ball_dir_x, -1);
    let mut c = new_breakout();
    c.ball_pos = Vec2 { x: 0, y: 478 };
    c.ball_dir_y = 1;
    update(&mut c);
    assert_eq!(c.ball_pos.y, 481);
    assert_eq!(c.ball_dir_y, -1);
}

#[test]
fn the_paddle_returns_the_ball() {
    let mut b = new_breakout();
    b.ball_pos = Vec2 { x: 0, y: -438 };
    update(&mut b);
    assert_eq!(b.ball_pos.y, -441);
    assert_eq!(b.ball_dir_y, 1);
    // out of the paddle's reach the ball keeps falling
    let mut c = new_breakout();
    c.ball_pos = Vec2 { x: 200, y: -438 };
    update(&mut c);
    assert_eq!(c.ball_dir_y, -1);
}

#[test]
fn coordinates_saturate_at_the_playable_rim() {
    let mut b = new_breakout();
    b.ball_pos = Vec2 { x: 999999999, y: 0 };
    update(&mut b);
    assert_eq!(b.ball_pos.x, 1000000000);
    // the frame leaves the state fit for the next frame
    update(&mut b);
    assert_eq!(b.ball_pos.x, 999999997);
}

#[test]
fn the_grid_holds_one_cell_per_square() {
    let mut g = random_grid();
    assert_eq!(g.cell.len(), NUM_SQUARES as usize);
    update_loop(&mut g);
    assert_eq!(g.cell.len(), NUM_SQUARES as usize);
}

#[test]
fn cell_indices_unfold_row_major() {
    assert_eq!(cell_col(0), 0);
    assert_eq!(cell_row(0), 0);
    assert_eq!(cell_col(85), 5);
    assert_eq!(cell_row(85), 1);
    assert_eq!(cell_col(4799), 79);
    assert_eq!(cell_row(4799), 59);
}

#[test]
fn cells_land_on_their_window_centres() {
    assert_eq!(cell_draw_x(0), -316);
    assert_eq!(cell_draw_y(0), 236);
    assert_eq!(cell_draw_x(79), 316);
    assert_eq!(cell_draw_y(59), -236);
}
