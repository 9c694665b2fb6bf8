use npong::physics::{contact, Contact, PaddleBox, Probe};
use npong::client::clientstate::ClientState;
use npong::client::gameloop::{ClientTick, Gameloop};
use npong::client::systems::input::Input;
use npong::keys::Key;
use npong::server::{choose_seat, claim_room_id, Seat, Seats};
use npong::shared::coordinates::Coordinate;
use npong::shared::net::{player_id_from_greeting, ClientMsg, ServerMsg};
use npong::shared::object::ball::Ball;
use npong::shared::state::gamestate::{GameState, Status};

#[test]
fn greeting_names_the_player() {
    assert_eq!(player_id_from_greeting(b"1"), 1);
    assert_eq!(player_id_from_greeting(b"2"), 2);
    assert_eq!(player_id_from_greeting(b"+7"), 7);
    assert_eq!(player_id_from_greeting(b"255"), 255);
    assert_eq!(player_id_from_greeting(b"007"), 7);
}

#[test]
fn unreadable_greeting_leaves_player_one() {
    assert_eq!(player_id_from_greeting(b""), 1);
    assert_eq!(player_id_from_greeting(b"+"), 1);
    assert_eq!(player_id_from_greeting(b"256"), 1);
    assert_eq!(player_id_from_greeting(b"-1"), 1);
    assert_eq!(player_id_from_greeting(b"2 "), 1);
    assert_eq!(player_id_from_greeting(b"abc"), 1);
    assert_eq!(player_id_from_greeting(&[0xff, 0x32]), 1);
}

#[test]
fn server_broadcast_reaches_the_client() {
    let mut server = GameState::new(0);
    server.objects.paddles[1].position = Coordinate::from_cartesian(123_000, 15_000);
    server.objects.ball.position = Coordinate::from_cartesian(42, 43);
    let msg = server.server_msg();
    assert_eq!(msg, ServerMsg { p1_x: 560_000, p2_x: 123_000, ball_x: 42, ball_y: 43 });
    let mut client = GameState::new(1);
    client.objects.paddles[0].position = Coordinate::from_cartesian(1, 870_000);
    client.apply_server_msg(&msg);
    assert_eq!(client.objects.paddles[1].position.get_cartesian(), (123_000, 15_000));
    assert_eq!(client.objects.paddles[0].position.get_cartesian(), (1, 870_000));
    assert_eq!(client.objects.ball.position.get_cartesian(), (42, 43));
    let mut client2 = GameState::new(2);
    client2.apply_server_msg(&msg);
    assert_eq!(client2.objects.paddles[0].position.get_cartesian(), (560_000, 870_000));
}

#[test]
fn client_message_moves_its_paddle_on_the_server() {
    let mut client = GameState::new(2);
    client.objects.paddles[1].position = Coordinate::from_cartesian(777, 15_000);
    let msg = client.client_msg();
    assert_eq!(msg, ClientMsg { paddle_x: 777 });
    assert_eq!(client.local_paddle_x(), 777);
    let mut server = GameState::new(0);
    server.apply_client_msg(false, &msg);
    assert_eq!(server.objects.paddles[1].position.get_cartesian(), (777, 15_000));
    assert_eq!(server.objects.paddles[0].position.get_cartesian(), (560_000, 870_000));
    server.apply_client_msg(true, &ClientMsg { paddle_x: 5 });
    assert_eq!(server.objects.paddles[0].position.get_cartesian(), (5, 870_000));
}

#[test]
fn room_runs_when_full_and_restarts_when_left() {
    let mut gs = GameState::new(0);
    gs.second_player_joined();
    assert_eq!(gs.status, Status::Running);
    gs.objects.ball = Ball::served(0, true);
    gs.update(10);
    assert_eq!(gs.objects.ball.position.get_cartesian(), (600_000, 455_000));
    gs.player_left();
    assert_eq!(gs.status, Status::Paused);
    assert_eq!(gs.objects.ball.position.get_cartesian(), (600_000, 450_000));
}

#[test]
fn newcomer_joins_a_waiting_player() {
    let rooms = vec![
        Seats { room: 0, player1: true, player2: true },
        Seats { room: 3, player1: false, player2: true },
        Seats { room: 5, player1: true, player2: false },
    ];
    assert_eq!(choose_seat(&rooms), Seat { room: Some(3), is_player1: true });
    let rooms = vec![Seats { room: 9, player1: true, player2: false }];
    assert_eq!(choose_seat(&rooms), Seat { room: Some(9), is_player1: false });
}

#[test]
fn newcomer_opens_a_room_when_none_waits() {
    assert_eq!(choose_seat(&vec![]), Seat { room: None, is_player1: true });
    let rooms = vec![
        Seats { room: 0, player1: true, player2: true },
        Seats { room: 1, player1: false, player2: false },
    ];
    assert_eq!(choose_seat(&rooms), Seat { room: None, is_player1: true });
    let mut next: u16 = 4;
    assert_eq!(claim_room_id(&mut next), 4);
    assert_eq!(next, 5);
}

#[test]
fn client_input_toggles_on_release() {
    let mut input = Input::new();
    input.get_inputs(&Key::KeyD, true);
    assert!(input.pressed.contains(&Key::KeyD));
    assert!(!input.toggled.contains(&Key::KeyD));
    input.get_inputs(&Key::KeyD, false);
    assert!(!input.pressed.contains(&Key::KeyD));
    assert!(input.toggled.contains(&Key::KeyD));
    input.get_inputs(&Key::KeyD, false);
    assert!(!input.toggled.contains(&Key::KeyD));
}

#[test]
fn client_keys_become_controls() {
    let mut input = Input::new();
    input.get_inputs(&Key::ArrowLeft, true);
    input.get_inputs(&Key::Space, false);
    let g = input.to_game_input();
    assert!(g.p1_left_pressed);
    assert!(!g.p1_right_pressed);
    assert!(g.pause_toggled);
    assert!(!g.quit_game);
}

#[test]
fn client_loop_sends_its_paddle_while_running() {
    let input = Input::new();
    let mut gs = GameState::new(1);
    gs.status = Status::Running;
    assert_eq!(Gameloop::step(&mut gs, &input, 16), ClientTick::Sync(ClientMsg { paddle_x: 560_000 }));
    gs.status = Status::Paused;
    assert_eq!(Gameloop::step(&mut gs, &input, 16), ClientTick::Idle);
    gs.status = Status::Exit;
    assert_eq!(Gameloop::step(&mut gs, &input, 16), ClientTick::Stop);
}

#[test]
fn default_client_is_player_one() {
    let c = ClientState::default();
    assert_eq!(c.player_id, 1);
    assert_eq!(c.game.player_id, 1);
    assert_eq!(c.game.status, Status::Paused);
}

#[test]
fn corner_never_touches_an_upright_box() {
    let b = PaddleBox { top: 100, bot: 115, left: 200, right: 280, is_bottom: true };
    for x in 180..300 {
        for y in 80..135 {
            let c = contact(&Probe { x, y, r: 10 }, &b);
            assert_ne!(c, Contact::Corner);
        }
    }
    let inverted = PaddleBox { top: 115, bot: 100, left: 200, right: 280, is_bottom: true };
    assert_eq!(contact(&Probe { x: 192, y: 112, r: 10 }, &inverted), Contact::Corner);
}
