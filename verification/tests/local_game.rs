use npong::keys::Key;
use npong::local::gameloop::{GameLoop, TickOutcome};
use npong::local::gamestate::{GameState, Status};
use npong::local::object::ball::Ball;
use npong::local::object::paddle::Paddle;
use npong::local::object::wall::Wall;
use npong::local::object::Object;
use npong::local::systems::collision::CollisionSystem;
use npong::local::systems::input::Input;

fn running_game() -> GameState {
    let mut gs = GameState::new();
    gs.status = Status::Running;
    gs.objects.ball = Ball::served(0, true);
    gs
}

#[test]
fn local_game_starts_paused_with_two_players() {
    let gs = GameState::new();
    assert_eq!(gs.status, Status::Paused);
    assert_eq!(gs.players, 2);
    assert_eq!(gs.objects.paddles.len(), 2);
    assert_eq!((gs.objects.ball.x, gs.objects.ball.y), (600, 450));
    let w = Wall::new(2);
    assert_eq!((w[0].x, w[0].y, w[0].width, w[0].height), (0, 890, 1200, 10));
    assert_eq!((w[1].x, w[1].y, w[1].width, w[1].height), (1190, 0, 10, 900));
}

#[test]
fn local_ball_rounds_to_whole_pixels() {
    let mut b = Ball::served(300000, false);
    b.update(5);
    assert_eq!((b.x, b.y), (602, 448));
    b.update(1);
    assert_eq!((b.x, b.y), (602, 448));
}

#[test]
fn shift_paddle_moves_in_whole_pixels() {
    let mut p = Paddle::new(2)[0];
    p.left_shift(16);
    assert_eq!((p.shift, p.acceleration), (-4, -10));
    p.left_shift(16);
    assert_eq!((p.shift, p.acceleration), (-8, -20));
    p.right_shift(16);
    assert_eq!((p.shift, p.acceleration), (-4, 10));
}

#[test]
fn paddle_coordinates_for_each_viewer() {
    let ps = Paddle::new(2);
    assert_eq!(ps[0].global_coordinates(1), (600, 875));
    assert_eq!(ps[0].global_coordinates(2), (600, 25));
    assert_eq!(ps[0].local_coordinates(0), (600, 883));
    assert_eq!(ps[0].local_coordinates(1), (600, 17));
    assert_eq!(ps[1].local_coordinates(1), (600, 883));
    let mut p = ps[0];
    p.shift = 100;
    assert_eq!(p.local_coordinates(0), (500, 883));
}

#[test]
fn paddle_wall_collision_clamps_the_shift() {
    let mut p = Paddle::new(2)[0];
    p.shift = -600;
    CollisionSystem::paddle_wall_collion(&mut p, 0);
    assert_eq!(p.shift, -550);
    p.shift = 700;
    CollisionSystem::paddle_wall_collion(&mut p, 1);
    assert_eq!(p.shift, 550);
    p.shift = 12;
    CollisionSystem::paddle_wall_collion(&mut p, 1);
    assert_eq!(p.shift, 12);
}

#[test]
fn keys_drive_both_local_paddles_at_once() {
    let mut gs = running_game();
    let mut input = Input::new();
    input.get_inputs(&Key::KeyA, true);
    input.get_inputs(&Key::ArrowRight, true);
    gs.handle_input(&input, 16);
    assert_eq!(gs.objects.paddles[0].shift, -4);
    assert_eq!(gs.objects.paddles[1].shift, 4);
    assert_eq!(gs.status, Status::Running);
}

#[test]
fn space_toggle_pauses_the_local_game() {
    let mut gs = running_game();
    let mut input = Input::new();
    input.get_inputs(&Key::Space, true);
    gs.handle_input(&input, 16);
    assert_eq!(gs.status, Status::Running);
    input.get_inputs(&Key::Space, false);
    gs.handle_input(&input, 16);
    assert_eq!(gs.status, Status::Paused);
    gs.check_paused(&input);
    assert_eq!(gs.status, Status::Paused);
    input.get_inputs(&Key::Space, false);
    gs.check_paused(&input);
    assert_eq!(gs.status, Status::Running);
}

#[test]
fn local_ball_bounces_off_the_paddle_face() {
    let mut gs = running_game();
    gs.objects.ball.x = 600;
    gs.objects.ball.y = 875;
    gs.objects.ball.vy = 400000;
    CollisionSystem::collide(&mut gs, 0, Ball::served(0, true));
    assert_eq!((gs.objects.ball.x, gs.objects.ball.y), (600, 872));
    assert_eq!((gs.objects.ball.vx, gs.objects.ball.vy), (0, -410000));
    assert_eq!(gs.status, Status::Running);
}

#[test]
fn local_ball_grazing_a_corner_trades_its_speeds() {
    let mut gs = running_game();
    gs.objects.ball.x = 552;
    gs.objects.ball.y = 879;
    gs.objects.ball.vx = 300000;
    gs.objects.ball.vy = 200000;
    CollisionSystem::collide(&mut gs, 0, Ball::served(0, true));
    assert_eq!((gs.objects.ball.x, gs.objects.ball.y), (552, 879));
    assert_eq!((gs.objects.ball.vx, gs.objects.ball.vy), (-210000, -310000));
}

#[test]
fn goal_starts_the_local_game_over() {
    let mut gs = running_game();
    gs.objects.paddles[0].shift = 123;
    gs.objects.ball.x = 300;
    gs.objects.ball.y = 885;
    CollisionSystem::collide(&mut gs, 0, Ball::served(0, true));
    assert_eq!(gs.status, Status::Reset);
    assert_eq!(gs.objects.paddles[0].shift, 0);
    assert_eq!((gs.objects.ball.x, gs.objects.ball.y), (600, 450));
    assert_eq!((gs.objects.ball.vx, gs.objects.ball.vy), (0, 510000));
}

#[test]
fn serve_matters_only_after_a_goal() {
    let mut a = running_game();
    let mut b = running_game();
    CollisionSystem::collide(&mut a, 16, Ball::served(0, true));
    CollisionSystem::collide(&mut b, 16, Ball::served(400000, false));
    assert_eq!((a.objects.ball.x, a.objects.ball.y), (b.objects.ball.x, b.objects.ball.y));
    assert_eq!((a.objects.ball.vx, a.objects.ball.vy), (b.objects.ball.vx, b.objects.ball.vy));
}

#[test]
fn side_wall_turns_the_local_ball() {
    let mut gs = running_game();
    gs.objects.ball.x = 1185;
    gs.objects.ball.vx = 300000;
    gs.objects.ball.vy = 0;
    gs.collision(0);
    assert_eq!(gs.objects.ball.x, 1180);
    assert_eq!(gs.objects.ball.vx, -310000);
    assert_eq!(gs.status, Status::Running);
}

#[test]
fn local_update_moves_then_collides() {
    let mut gs = running_game();
    gs.update(10);
    assert_eq!((gs.objects.ball.x, gs.objects.ball.y), (600, 455));
    assert_eq!(gs.status, Status::Running);
}

#[test]
fn reset_serves_a_fresh_ball() {
    let mut gs = running_game();
    gs.objects.ball.x = 3;
    gs.reset();
    assert_eq!(gs.status, Status::Reset);
    assert_eq!((gs.objects.ball.x, gs.objects.ball.y), (600, 450));
    let sq = gs.objects.ball.vx as i64 * gs.objects.ball.vx as i64 + gs.objects.ball.vy as i64 * gs.objects.ball.vy as i64;
    assert!((sq - 250_000_000_000).abs() <= 500_000);
}

#[test]
fn loop_steps_follow_the_status() {
    let input = Input::new();
    let mut gs = GameState::new();
    gs.status = Status::Reset;
    assert_eq!(GameLoop::step(&mut gs, &input, 16), TickOutcome::Restarting);
    assert_eq!(gs.status, Status::Running);
    assert_eq!(GameLoop::step(&mut gs, &input, 16), TickOutcome::Advanced);
    gs.status = Status::Exit;
    assert_eq!(GameLoop::step(&mut gs, &input, 16), TickOutcome::Exiting);
    assert_eq!(gs.status, Status::Exit);
    gs.status = Status::Paused;
    assert_eq!(GameLoop::step(&mut gs, &input, 16), TickOutcome::Advanced);
    assert_eq!(gs.status, Status::Running);
}

#[test]
fn delta_counts_milliseconds_since_the_last_update() {
    let gl = GameLoop { ticks: std::time::Duration::from_millis(16), last_update: std::time::Instant::now() };
    let d = gl.get_delta();
    assert!(d < 1000);
    let earlier = std::time::Instant::now() - std::time::Duration::from_millis(50);
    let gl = GameLoop { ticks: std::time::Duration::from_millis(16), last_update: earlier };
    assert!(gl.get_delta() >= 50);
}

#[test]
fn objects_can_be_named_as_one_kind() {
    let o = Object::Ball(Ball::served(0, true));
    assert!(matches!(o, Object::Ball(_)));
}
