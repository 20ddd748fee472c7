use rust_game::color::{Color, PALETTE_LEN};
use rust_game::frame::{draw_calls, frame, DrawCall, FrameInput, OverlayText};
use rust_game::geometry::{Vector, FLOOR_Y, GRAVITY, RIGHT_X, UNIT};
use rust_game::gopher::{store_in_range, Gopher};
use rust_game::physics::{advance, damp_velocity, step, BounceDraw};
use rust_game::spawn::{new_gopher, setup, spawn_batch, SpawnDraw, GOPHERS_PER_CLICK, STARTING_GOPHERS};

fn draws(n: usize) -> Vec<SpawnDraw> {
    (0..n)
        .map(|i| SpawnDraw { vx: (i * 7 % 10000) as u32, vy: (i * 13 % 10000) as u32, color: i % PALETTE_LEN })
        .collect()
}

fn calm(n: usize) -> Vec<BounceDraw> {
    vec![BounceDraw { coin: 0, kick: 9999 }; n]
}

fn sprite(px: i64, py: i64, vx: i64, vy: i64) -> Gopher {
    Gopher { pos: Vector::new(px, py), vel: Vector::new(vx, vy), color: Color::from_palette(1) }
}

#[test]
fn spawn_grows_store_by_count() {
    let mut store = setup(&draws(STARTING_GOPHERS));
    for n in [0usize, 1, 17, 1000] {
        let before = store.len();
        spawn_batch(&mut store, Vector::new(3, 4), &draws(n));
        assert_eq!(store.len(), before + n);
    }
}

#[test]
fn spawned_sprites_start_at_origin() {
    let mut store = vec![sprite(1, 2, 3, 4)];
    let origin = Vector::new(1234567, -890);
    spawn_batch(&mut store, origin, &draws(50));
    assert_eq!(store[0], sprite(1, 2, 3, 4));
    for g in &store[1..] {
        assert_eq!(g.pos, origin);
    }
}

#[test]
fn new_sprite_takes_velocity_and_palette_from_draw() {
    let g = new_gopher(Vector::new(0, 0), SpawnDraw { vx: 9999, vy: 2000, color: 2 });
    assert_eq!(g.vel, Vector::new(49995, 10000));
    assert_eq!(g.color, Color::new(250, 250, 1000, 650));
    assert_eq!(Color::from_palette(0), Color::new(1000, 250, 250, 750));
    assert_eq!(Color::from_palette(1), Color::new(250, 1000, 250, 600));
}

#[test]
fn spawn_of_zero_leaves_store_unchanged() {
    let mut store = setup(&draws(STARTING_GOPHERS));
    let before = store.clone();
    spawn_batch(&mut store, Vector::new(77, 88), &Vec::new());
    assert_eq!(store, before);
}

#[test]
fn startup_population_at_top_left() {
    let store = setup(&draws(1000));
    assert_eq!(store.len(), 1000);
    assert!(store.iter().all(|g| g.pos == Vector::new(0, 0)));
}

#[test]
fn advance_keeps_colors() {
    let mut store = setup(&draws(STARTING_GOPHERS));
    let colors: Vec<Color> = store.iter().map(|g| g.color).collect();
    let kicks = vec![BounceDraw { coin: 9999, kick: 9999 }; store.len()];
    for _ in 0..200 {
        advance(&mut store, &kicks);
    }
    assert_eq!(store.len(), colors.len());
    assert!(store.iter().zip(colors.iter()).all(|(g, c)| g.color == *c));
}

#[test]
fn free_flight_moves_by_velocity() {
    let g = sprite(100 * UNIT, 200 * UNIT, 30000, -20000);
    for d in [BounceDraw { coin: 0, kick: 0 }, BounceDraw { coin: 9999, kick: 9999 }] {
        let n = step(g, d);
        assert_eq!(n.pos, Vector::new(100 * UNIT + 30000, 200 * UNIT - 20000 + GRAVITY));
        assert_eq!(n.vel, Vector::new(30000, -20000 + GRAVITY));
        assert_eq!(n.vel.y, g.vel.y + 981);
    }
}

#[test]
fn horizontal_walls_set_direction() {
    let left = step(sprite(10, 100 * UNIT, -500, 0), calm(1)[0]);
    assert_eq!(left.pos.x, -490);
    assert_eq!(left.vel.x, 500);
    let left_already = step(sprite(-10, 100 * UNIT, 5, 0), calm(1)[0]);
    assert_eq!(left_already.vel.x, 5);
    let right = step(sprite(RIGHT_X, 100 * UNIT, 700, 0), calm(1)[0]);
    assert_eq!(right.pos.x, RIGHT_X + 700);
    assert_eq!(right.vel.x, -700);
    let right_already = step(sprite(RIGHT_X + 10, 100 * UNIT, -3, 0), calm(1)[0]);
    assert_eq!(right_already.vel.x, -3);
}

#[test]
fn ceiling_reflects_vertical_velocity() {
    let n = step(sprite(100, 5000, 0, -20000), calm(1)[0]);
    assert_eq!(n.pos.y, 5000 - 20000 + GRAVITY);
    assert_eq!(n.vel.y, 20000 - GRAVITY);
}

#[test]
fn floor_damping_of_five_sprites() {
    let mut store: Vec<Gopher> = (0..5).map(|i| sprite(i * UNIT, FLOOR_Y, 0, 10 * UNIT)).collect();
    advance(&mut store, &calm(5));
    let expected = (10.0f64 + 0.0981) * 0.425;
    for g in &store {
        assert_eq!(g.vel.y, 42916);
        assert!((g.vel.y as f64 / UNIT as f64 - expected).abs() < 1.0 / UNIT as f64);
        assert_eq!(g.pos.y, FLOOR_Y + 10 * UNIT + GRAVITY);
    }
}

#[test]
fn floor_kick_when_coin_comes_up() {
    let g = sprite(0, FLOOR_Y, 0, 10 * UNIT);
    let kicked = step(g, BounceDraw { coin: 5001, kick: 5000 });
    assert_eq!(kicked.vel.y, 42916 - 8 * 5000);
    let half = step(g, BounceDraw { coin: 5000, kick: 5000 });
    assert_eq!(half.vel.y, 42916);
}

#[test]
fn damping_rounds_toward_zero() {
    assert_eq!(damp_velocity(100981), 42916);
    assert_eq!(damp_velocity(-100981), -42916);
    assert_eq!(damp_velocity(40), 17);
    assert_eq!(damp_velocity(0), 0);
}

#[test]
fn range_check_of_store() {
    let mut store = setup(&draws(10));
    assert!(store_in_range(&store));
    store.push(sprite(i64::MAX, 0, 0, 0));
    assert!(!store_in_range(&store));
    assert!(store_in_range(&Vec::new()));
}

#[test]
fn frame_draws_clear_sprites_and_overlay() {
    let mut store = setup(&draws(3));
    let input = FrameInput { exit_pressed: false, spawn_pressed: false, pointer: Vector::new(0, 0) };
    let out = frame(&mut store, input, &Vec::new(), &calm(3));
    assert!(!out.request_exit);
    assert_eq!(out.calls.len(), 1 + 3 + 5);
    assert_eq!(out.calls[0], DrawCall::Clear(Color::new(190, 190, 190, 1000)));
    for (i, g) in store.iter().enumerate() {
        assert_eq!(out.calls[1 + i], DrawCall::Image(g.pos, g.color));
    }
    assert_eq!(
        out.calls[4],
        DrawCall::Rectangle(Vector::new(10 * UNIT, 10 * UNIT), Vector::new(125 * UNIT, 55 * UNIT), Color::new(0, 0, 0, 500))
    );
    assert_eq!(out.calls[5], DrawCall::Text(OverlayText::Lang, Vector::new(10 * UNIT, 10 * UNIT)));
    assert_eq!(out.calls[6], DrawCall::Text(OverlayText::Fps, Vector::new(10 * UNIT, 24 * UNIT)));
    assert_eq!(out.calls[7], DrawCall::Text(OverlayText::Tps, Vector::new(10 * UNIT, 36 * UNIT)));
    assert_eq!(out.calls[8], DrawCall::Text(OverlayText::Count(3), Vector::new(10 * UNIT, 48 * UNIT)));
    assert_eq!(draw_calls(&store), out.calls);
}

#[test]
fn frame_spawns_at_pointer_and_passes_exit_on() {
    let mut store = setup(&draws(STARTING_GOPHERS));
    let pointer = Vector::new(320 * UNIT, 240 * UNIT);
    let input = FrameInput { exit_pressed: true, spawn_pressed: true, pointer };
    let spawn = draws(GOPHERS_PER_CLICK);
    let out = frame(&mut store, input, &spawn, &calm(STARTING_GOPHERS + GOPHERS_PER_CLICK));
    assert!(out.request_exit);
    assert_eq!(store.len(), STARTING_GOPHERS + GOPHERS_PER_CLICK);
    let fresh = new_gopher(pointer, spawn[0]);
    assert_eq!(store[STARTING_GOPHERS], step(fresh, calm(1)[0]));
    assert_eq!(out.calls[1 + store.len() + 4], DrawCall::Text(OverlayText::Count(2000), Vector::new(10 * UNIT, 48 * UNIT)));
}
