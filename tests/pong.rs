use pong::ball::{Ball, BALL_SPEED_X, BALL_SPEED_Y};
use pong::bar::{step_for_keys, Bar, Key, BAR_LENGTH, BAR_STEP, BAR_WEIGHT};
use pong::game::Model;
use pong::geometry::{Rect, Vec2};

fn window() -> Rect {
    Rect::centred(5000, 5000)
}

fn ball_at(x: i64, y: i64, vx: i64, vy: i64) -> Ball {
    Ball { position: Vec2::new(x, y), velocity: Vec2::new(vx, vy) }
}

fn bar_at(x: i64, y: i64) -> Bar {
    Bar { length: BAR_LENGTH, position: Vec2::new(x, y), weight: BAR_WEIGHT }
}

fn far_bar() -> Bar {
    bar_at(-2200, 0)
}

#[test]
fn centred_window_edges() {
    let r = window();
    assert_eq!((r.left, r.right, r.bottom, r.top), (-2500, 2500, -2500, 2500));
    assert_eq!(r.half_width(), 2500);
    assert_eq!(r.half_height(), 2500);
    let odd = Rect::centred(7, 9);
    assert_eq!((odd.left, odd.right, odd.bottom, odd.top), (-3, 4, -4, 5));
}

#[test]
fn new_ball_starts_at_origin() {
    let b = Ball::new();
    assert_eq!(b.position, Vec2::new(0, 0));
    assert_eq!(b.velocity, Vec2::new(25, 50));
    assert_eq!((BALL_SPEED_X, BALL_SPEED_Y), (25, 50));
}

#[test]
fn first_tick_moves_without_bounce() {
    let r = window();
    let bar = Bar::new(r);
    let mut b = Ball::new();
    b.update(&r, &bar);
    assert_eq!(b.position, Vec2::new(25, 50));
    assert_eq!(b.velocity, Vec2::new(25, 50));
}

#[test]
fn ball_bounces_off_right_edge_eventually() {
    let r = window();
    let bar = Bar::new(r);
    let mut b = Ball::new();
    let mut ticks = 0;
    while b.position.x <= 2500 {
        assert_eq!(b.velocity.x, 25);
        b.update(&r, &bar);
        ticks += 1;
    }
    assert_eq!(ticks, 101);
    assert_eq!(b.position.x, 2525);
    assert_eq!(b.velocity.x, -25);
}

#[test]
fn reflect_right_edge() {
    let mut b = ball_at(2490, 0, 25, 0);
    b.update(&window(), &far_bar());
    assert_eq!(b.position, Vec2::new(2515, 0));
    assert_eq!(b.velocity, Vec2::new(-25, 0));
}

#[test]
fn reflect_left_edge() {
    let mut b = ball_at(-2490, 2000, -25, 0);
    b.update(&window(), &far_bar());
    assert_eq!(b.velocity, Vec2::new(25, 0));
}

#[test]
fn reflect_top_and_bottom_edges() {
    let mut b = ball_at(0, 2480, 0, 30);
    b.update(&window(), &far_bar());
    assert_eq!(b.velocity, Vec2::new(0, -30));
    let mut b = ball_at(0, -2480, 0, -30);
    b.update(&window(), &far_bar());
    assert_eq!(b.velocity, Vec2::new(0, 30));
}

#[test]
fn reflect_corner_flips_both() {
    let mut b = ball_at(2490, 2490, 20, 20);
    b.update(&window(), &far_bar());
    assert_eq!(b.velocity, Vec2::new(-20, -20));
}

#[test]
fn edge_exactly_reached_does_not_reflect() {
    let mut b = ball_at(2475, 2450, 25, 50);
    b.update(&window(), &far_bar());
    assert_eq!(b.position, Vec2::new(2500, 2500));
    assert_eq!(b.velocity, Vec2::new(25, 50));
}

#[test]
fn paddle_contact_flips_only_horizontal() {
    let mut b = ball_at(-2175, 0, -25, 50);
    b.update(&window(), &far_bar());
    assert_eq!(b.position, Vec2::new(-2200, 50));
    assert_eq!(b.velocity, Vec2::new(25, 50));
}

#[test]
fn paddle_contact_beyond_edge_flips_twice() {
    // A paddle that reaches past the left edge: edge and paddle both reflect.
    let mut b = ball_at(-2490, 0, -25, 0);
    b.update(&window(), &bar_at(-2500, 0));
    assert_eq!(b.position, Vec2::new(-2515, 0));
    assert_eq!(b.velocity, Vec2::new(-25, 0));
}

#[test]
fn new_bar_near_left_middle() {
    let b = Bar::new(window());
    assert_eq!(b.position, Vec2::new(-2200, 0));
    assert_eq!(b.length, 500);
    assert_eq!(b.weight, 200);
    let off = Bar::new(Rect { left: 0, right: 100, bottom: 10, top: 30 });
    assert_eq!(off.position, Vec2::new(300, 20));
}

#[test]
fn keys_give_steps() {
    assert_eq!(step_for_keys(&[]), 0);
    assert_eq!(step_for_keys(&[Key::Up]), BAR_STEP);
    assert_eq!(step_for_keys(&[Key::Down]), -100);
    assert_eq!(step_for_keys(&[Key::Other]), 0);
    assert_eq!(step_for_keys(&[Key::Other, Key::Up]), 0);
}

#[test]
fn bar_moves_with_keys() {
    let r = window();
    let mut b = Bar::new(r);
    b.update(&r, &[Key::Up]);
    assert_eq!(b.position, Vec2::new(-2200, 100));
    b.update(&r, &[Key::Down]);
    b.update(&r, &[Key::Down]);
    assert_eq!(b.position, Vec2::new(-2200, -100));
    b.update(&r, &[Key::Other]);
    assert_eq!(b.position, Vec2::new(-2200, -100));
}

#[test]
fn bar_is_pinned_horizontally() {
    let r = window();
    let mut b = bar_at(123, 0);
    b.update(&r, &[]);
    assert_eq!(b.position.x, -2200);
    let wide = Rect::centred(8000, 5000);
    b.update(&wide, &[]);
    assert_eq!(b.position.x, -3700);
}

#[test]
fn clamp_is_idempotent_without_input() {
    let r = window();
    let mut b = bar_at(-2200, 2400);
    b.update(&r, &[]);
    let first = b.position.y;
    b.update(&r, &[]);
    assert_eq!(b.position.y, first);
    let mut inside = bar_at(-2200, 700);
    inside.update(&r, &[]);
    assert_eq!(inside.position.y, 700);
    inside.update(&r, &[]);
    assert_eq!(inside.position.y, 700);
}

#[test]
fn clamp_top_is_exact() {
    let r = window();
    let mut b = bar_at(-2200, 2400);
    b.update(&r, &[]);
    assert_eq!(b.position.y, 2000);
    let mut b = bar_at(-2200, 2000);
    b.update(&r, &[Key::Up]);
    assert_eq!(b.position.y, 2000);
}

#[test]
fn clamp_bottom_is_exact() {
    let r = window();
    let mut b = bar_at(-2200, -2400);
    b.update(&r, &[]);
    assert_eq!(b.position.y, -2000);
    let mut b = bar_at(-2200, -2000);
    b.update(&r, &[Key::Down]);
    assert_eq!(b.position.y, -2000);
}

#[test]
fn clamp_bar_taller_than_window() {
    let r = Rect::centred(5000, 600);
    let mut b = bar_at(-2200, 0);
    b.update(&r, &[]);
    assert_eq!(b.position.y, -200);
    b.update(&r, &[]);
    assert_eq!(b.position.y, 200);
}

#[test]
fn containment_boundary() {
    let b = bar_at(-2200, 0);
    assert!(b.contains(Vec2::new(-2300, -500)));
    assert!(b.contains(Vec2::new(-2100, 500)));
    assert!(b.contains(Vec2::new(-2300, 500)));
    assert!(b.contains(Vec2::new(-2100, -500)));
    assert!(b.contains(Vec2::new(-2200, 0)));
    assert!(!b.contains(Vec2::new(-2301, 0)));
    assert!(!b.contains(Vec2::new(-2099, 0)));
    assert!(!b.contains(Vec2::new(-2200, 501)));
    assert!(!b.contains(Vec2::new(-2200, -501)));
    assert!(!b.contains(Vec2::new(-2310, 0)));
    assert!(!b.contains(Vec2::new(-2200, 510)));
}

#[test]
fn containment_odd_weight() {
    let b = Bar { length: 10, position: Vec2::new(0, 0), weight: 5 };
    assert!(b.contains(Vec2::new(2, 0)));
    assert!(b.contains(Vec2::new(-2, 10)));
    assert!(!b.contains(Vec2::new(3, 0)));
    assert!(!b.contains(Vec2::new(-3, 0)));
}

#[test]
fn containment_negative_extent() {
    let b = Bar { length: -10, position: Vec2::new(0, 0), weight: -4 };
    assert!(b.contains(Vec2::new(2, 10)));
    assert!(b.contains(Vec2::new(-2, -10)));
    assert!(!b.contains(Vec2::new(3, 0)));
    assert!(!b.contains(Vec2::new(0, 11)));
}

#[test]
fn model_starts_fresh() {
    let m = Model::new(window());
    assert_eq!(m.ball, Ball::new());
    assert_eq!(m.bar, Bar::new(window()));
}

#[test]
fn model_ball_uses_previous_bar_position() {
    let r = window();
    // The paddle sits just above the ball's next position and moves down onto it.
    let mut m = Model {
        ball: ball_at(-2175, 0, -25, 0),
        bar: bar_at(-2200, 600),
    };
    m.update(&r, &[Key::Down]);
    assert_eq!(m.ball.velocity, Vec2::new(-25, 0));
    assert_eq!(m.bar.position, Vec2::new(-2200, 500));
    // Now the paddle covers the ball's next position.
    m.update(&r, &[]);
    assert_eq!(m.ball.position, Vec2::new(-2225, 0));
    assert_eq!(m.ball.velocity, Vec2::new(25, 0));
}

