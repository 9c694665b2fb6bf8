use npong::shared::coordinates::Coordinate;
use npong::shared::input::GameInput;
use npong::shared::object::ball::Ball;
use npong::shared::object::paddle::Paddle;
use npong::shared::object::wall::Wall;
use npong::shared::state::gamestate::{GameState, Status};

fn running_game(id: u8) -> GameState {
    let mut gs = GameState::new(id);
    gs.status = Status::Running;
    gs.objects.ball = Ball::served(0, true);
    gs
}

#[test]
fn paddles_start_centred_on_their_edges() {
    let p = Paddle::new(2);
    assert_eq!(p.len(), 2);
    assert_eq!(p[0].position.get_cartesian(), (560_000, 870_000));
    assert_eq!(p[1].position.get_cartesian(), (560_000, 15_000));
    assert_eq!((p[0].width, p[0].height), (80, 15));
}

#[test]
fn walls_frame_the_field() {
    let w = Wall::new(2);
    assert_eq!(w[0].position.get_cartesian(), (0, 890_000));
    assert_eq!((w[0].width, w[0].height), (1200, 10));
    assert_eq!(w[1].position.get_cartesian(), (1_190_000, 0));
    assert_eq!((w[1].width, w[1].height), (10, 900));
    assert_eq!(w[2].position.get_cartesian(), (0, 0));
    assert_eq!(w[3].position.get_cartesian(), (0, 0));
    assert!(w.iter().all(|x| !x.critical));
}

#[test]
fn left_shift_moves_and_accelerates() {
    let mut p = Paddle::new(2)[0];
    p.left_shift(16);
    assert_eq!(p.position.get_cartesian(), (555_200, 870_000));
    assert_eq!(p.acceleration, -10);
    p.left_shift(16);
    assert_eq!(p.position.get_cartesian(), (555_200 - 4_960, 870_000));
    assert_eq!(p.acceleration, -20);
}

#[test]
fn right_shift_after_left_drops_speed() {
    let mut p = Paddle::new(2)[0];
    p.left_shift(16);
    p.right_shift(16);
    assert_eq!(p.position.get_cartesian(), (560_000, 870_000));
    assert_eq!(p.acceleration, 10);
}

#[test]
fn paddle_stops_at_screen_edges() {
    let mut p = Paddle::new(2)[0];
    p.position = Coordinate::from_cartesian(1_000, 0);
    p.left_shift(100);
    assert_eq!(p.position.get_cartesian(), (0, 0));
    p.position = Coordinate::from_cartesian(1_119_000, 0);
    p.right_shift(100);
    assert_eq!(p.position.get_cartesian(), (1_120_000, 0));
    p.right_shift(u128::MAX);
    assert_eq!(p.position.get_cartesian(), (1_120_000, 0));
}

#[test]
fn steady_movement_speeds_up_on_concrete_values() {
    let mut p = Paddle::new(2)[0];
    let x0 = p.position.x;
    p.left_shift(10);
    let x1 = p.position.x;
    p.left_shift(10);
    let x2 = p.position.x;
    assert_eq!(x1 - x2, x0 - x1 + 100);
}

#[test]
fn new_game_is_paused_and_fresh() {
    let gs = GameState::new(2);
    assert_eq!(gs.status, Status::Paused);
    assert_eq!(gs.player_id, 2);
    assert_eq!(gs.objects.paddles.len(), 2);
    assert_eq!(gs.objects.ball.position.get_cartesian(), (600_000, 450_000));
}

#[test]
fn offline_controls_drive_both_paddles() {
    let mut gs = running_game(0);
    let input = GameInput {
        p1_left_pressed: true,
        p2_right_pressed: true,
        ..GameInput::default()
    };
    gs.handle_input(&input, 16);
    assert_eq!(gs.objects.paddles[0].position.x, 555_200);
    assert_eq!(gs.objects.paddles[1].position.x, 564_800);
    assert_eq!(gs.status, Status::Running);
}

#[test]
fn idle_paddle_loses_its_speed() {
    let mut gs = running_game(0);
    gs.objects.paddles[1].acceleration = 70;
    let input = GameInput { p1_left_pressed: true, ..GameInput::default() };
    gs.handle_input(&input, 16);
    assert_eq!(gs.objects.paddles[1].acceleration, 0);
    assert_eq!(gs.objects.paddles[0].acceleration, -10);
}

#[test]
fn second_player_controls_are_mirrored() {
    let mut gs = running_game(2);
    let input = GameInput { p1_left_pressed: true, ..GameInput::default() };
    gs.handle_input(&input, 16);
    assert_eq!(gs.objects.paddles[1].position.x, 564_800);
    assert_eq!(gs.objects.paddles[0].position.x, 560_000);
    let mut gs = running_game(1);
    gs.handle_input(&input, 16);
    assert_eq!(gs.objects.paddles[0].position.x, 555_200);
}

#[test]
fn quitting_wins_over_pausing() {
    let mut gs = running_game(0);
    let input = GameInput { pause_toggled: true, quit_game: true, ..GameInput::default() };
    gs.handle_input(&input, 16);
    assert_eq!(gs.status, Status::Exit);
    let mut gs = running_game(0);
    let input = GameInput { pause_toggled: true, ..GameInput::default() };
    gs.handle_input(&input, 16);
    assert_eq!(gs.status, Status::Paused);
}

#[test]
fn paused_game_ignores_controls_and_ticks() {
    let mut gs = GameState::new(0);
    gs.objects.ball = Ball::served(0, true);
    let input = GameInput { p1_left_pressed: true, quit_game: true, ..GameInput::default() };
    gs.handle_input(&input, 16);
    gs.update(16);
    assert_eq!(gs.status, Status::Paused);
    assert_eq!(gs.objects.paddles[0].position.x, 560_000);
    assert_eq!(gs.objects.ball.position.get_cartesian(), (600_000, 450_000));
}

#[test]
fn check_paused_follows_the_toggle() {
    let mut gs = GameState::new(0);
    gs.check_paused(&GameInput::default());
    assert_eq!(gs.status, Status::Running);
    gs.check_paused(&GameInput { pause_toggled: true, ..GameInput::default() });
    assert_eq!(gs.status, Status::Paused);
}

#[test]
fn reset_restores_the_field() {
    let mut gs = running_game(1);
    gs.objects.paddles[0].position = Coordinate::from_cartesian(5, 5);
    gs.objects.ball.position = Coordinate::from_cartesian(7, 7);
    gs.reset();
    assert_eq!(gs.status, Status::Reset);
    assert_eq!(gs.player_id, 1);
    assert_eq!(gs.objects.paddles[0].position.get_cartesian(), (560_000, 870_000));
    assert_eq!(gs.objects.ball.position.get_cartesian(), (600_000, 450_000));
}

#[test]
fn tick_moves_the_ball_in_open_field() {
    let mut gs = running_game(0);
    gs.objects.ball.vx = 100000;
    gs.update(10);
    assert_eq!(gs.objects.ball.position.get_cartesian(), (601_000, 455_000));
    assert_eq!((gs.objects.ball.vx, gs.objects.ball.vy), (100000, 500000));
}

#[test]
fn right_wall_turns_the_ball_and_speeds_it_up() {
    let mut gs = running_game(0);
    gs.objects.ball.position = Coordinate::from_cartesian(1_185_000, 450_000);
    gs.objects.ball.vx = 300000;
    gs.objects.ball.vy = 400000;
    gs.collision(0);
    assert_eq!(gs.objects.ball.position.get_cartesian(), (1_180_000, 450_000));
    assert_eq!((gs.objects.ball.vx, gs.objects.ball.vy), (-310000, 410000));
}

#[test]
fn bottom_wall_sends_the_ball_up() {
    let mut gs = running_game(0);
    gs.objects.paddles.clear();
    gs.objects.ball.position = Coordinate::from_cartesian(300_000, 885_000);
    gs.objects.ball.vx = 0;
    gs.objects.ball.vy = 400000;
    gs.collision(10);
    assert_eq!((gs.objects.ball.vx, gs.objects.ball.vy), (0, -410000));
    assert_eq!(gs.objects.ball.position.get_cartesian(), (300_000, 880_000 - 4_000));
}

#[test]
fn ball_bounces_off_the_face_of_the_bottom_paddle() {
    let mut gs = running_game(0);
    gs.objects.ball.position = Coordinate::from_cartesian(600_000, 862_000);
    gs.objects.ball.vx = 0;
    gs.objects.ball.vy = 400000;
    gs.collision(0);
    assert_eq!(gs.objects.ball.position.get_cartesian(), (600_000, 860_000));
    assert_eq!((gs.objects.ball.vx, gs.objects.ball.vy), (0, -410000));
}

#[test]
fn ball_bounces_off_the_end_of_a_paddle() {
    let mut gs = running_game(0);
    gs.objects.ball.position = Coordinate::from_cartesian(555_000, 878_000);
    gs.objects.ball.vx = 300000;
    gs.objects.ball.vy = 0;
    gs.collision(0);
    assert_eq!(gs.objects.ball.position.get_cartesian(), (550_000, 878_000));
    assert_eq!((gs.objects.ball.vx, gs.objects.ball.vy), (-310000, 0));
}

#[test]
fn ball_beside_a_paddle_flies_on() {
    let mut gs = running_game(0);
    gs.objects.ball.position = Coordinate::from_cartesian(545_000, 864_000);
    gs.objects.ball.vx = 300000;
    gs.objects.ball.vy = 200000;
    gs.collision(16);
    assert_eq!(gs.objects.ball.position.get_cartesian(), (545_000, 864_000));
    assert_eq!((gs.objects.ball.vx, gs.objects.ball.vy), (300000, 200000));
}

#[test]
fn collision_keeps_paddles_between_the_walls() {
    let mut gs = running_game(0);
    gs.objects.paddles[0].position = Coordinate::from_cartesian(3_000, 870_000);
    gs.objects.paddles[1].position = Coordinate::from_cartesian(1_150_000, 15_000);
    gs.collision(0);
    assert_eq!(gs.objects.paddles[0].position.get_cartesian(), (10_000, 870_000));
    assert_eq!(gs.objects.paddles[1].position.get_cartesian(), (1_110_000, 15_000));
    assert_eq!(gs.objects.walls[0].position.get_cartesian(), (0, 890_000));
}
