use npong::arith::{isqrt, nearest_root, scaled_step};
use npong::shared::coordinates::Coordinate;
use npong::shared::object::ball::Ball;

#[test]
fn isqrt_known_values() {
    assert_eq!(isqrt(0), 0);
    assert_eq!(isqrt(1), 1);
    assert_eq!(isqrt(249999), 499);
    assert_eq!(isqrt(250000), 500);
    assert_eq!(isqrt(250_000_000_000), 500_000);
    assert_eq!(isqrt(u64::MAX), 4_294_967_295);
}

#[test]
fn nearest_root_rounds_to_nearest() {
    assert_eq!(nearest_root(0), 0);
    assert_eq!(nearest_root(2), 1);
    assert_eq!(nearest_root(3), 2);
    assert_eq!(nearest_root(6), 2);
    assert_eq!(nearest_root(7), 3);
    assert_eq!(nearest_root(249_999_000_000), 499_999);
    assert_eq!(nearest_root(u64::MAX), 4_294_967_296);
}

#[test]
fn scaled_step_rounds_and_truncates() {
    assert_eq!(scaled_step(300, 16, false, 1000), 4);
    assert_eq!(scaled_step(-300, 16, false, 1000), -4);
    assert_eq!(scaled_step(500, 3, true, 1000), 2);
    assert_eq!(scaled_step(-500, 3, true, 1000), -2);
    assert_eq!(scaled_step(499, 1, true, 1000), 0);
    assert_eq!(scaled_step(300_000, 5, true, 1_000_000), 2);
    assert_eq!(scaled_step(1, u128::MAX, false, 1000), i32::MAX);
    assert_eq!(scaled_step(-1, u128::MAX, true, 1_000_000), i32::MIN);
}

#[test]
fn served_ball_splits_speed() {
    let b = Ball::served(0, true);
    assert_eq!((b.vx, b.vy), (0, 500000));
    let b = Ball::served(300000, false);
    assert_eq!((b.vx, b.vy), (300000, -400000));
    let b = Ball::served(500000, true);
    assert_eq!((b.vx, b.vy), (500000, 0));
    let b = Ball::served(-123000, true);
    assert_eq!(b.vy, 484_635);
    assert_eq!(b.position.get_cartesian(), (600_000, 450_000));
    assert_eq!(b.radius, 10);
    assert_eq!(b.acceleration, 10_000);
}

#[test]
fn new_ball_is_served_at_half_a_pixel_per_millisecond() {
    for _ in 0..200 {
        let b = Ball::new();
        assert!(-500_000 <= b.vx && b.vx <= 500_000);
        let sq = b.vx as i64 * b.vx as i64 + b.vy as i64 * b.vy as i64;
        assert!((sq - 250_000_000_000).abs() <= 500_000);
        assert_eq!(b.position.get_cartesian(), (600_000, 450_000));
    }
}

#[test]
fn new_ball_goes_both_ways() {
    let mut up = false;
    let mut down = false;
    for _ in 0..400 {
        let b = Ball::new();
        if b.vy > 0 {
            down = true;
        }
        if b.vy < 0 {
            up = true;
        }
    }
    assert!(up && down);
}

#[test]
fn ball_update_moves_by_velocity_times_delta() {
    let mut b = Ball::served(300000, false);
    b.update(10);
    assert_eq!(b.position.get_cartesian(), (603_000, 446_000));
    b.update(0);
    assert_eq!(b.position.get_cartesian(), (603_000, 446_000));
}

#[test]
fn flight_adds_up_on_concrete_values() {
    let mut a = Ball::served(-123000, true);
    let mut b = a;
    a.update(7);
    a.update(9);
    b.update(16);
    assert_eq!(a.position.get_cartesian(), b.position.get_cartesian());
    let mut c = Ball::served(0, true);
    c.vx = 1_500;
    let mut d = c;
    c.update(1);
    c.update(1);
    d.update(2);
    assert_eq!(c.position.x - d.position.x, 1);
}

#[test]
fn coordinate_round_trip() {
    let c = Coordinate::from_cartesian(-5, 7);
    assert_eq!(c.get_cartesian(), (-5, 7));
}

#[test]
fn serve_keeps_the_speed_for_every_horizontal_speed() {
    for vx in (-500_000..=500_000).step_by(997) {
        let b = Ball::served(vx, vx % 2 == 0);
        let sq = b.vx as i64 * b.vx as i64 + b.vy as i64 * b.vy as i64;
        assert!((sq - 250_000_000_000).abs() <= 500_000);
    }
    let b = Ball::served(1_000, true);
    assert_eq!(b.vy, 499_999);
}

#[test]
fn new_ball_direction_varies() {
    let first = Ball::new().vx;
    let mut varied = false;
    for _ in 0..200 {
        if Ball::new().vx != first {
            varied = true;
        }
    }
    assert!(varied);
}
