use npong::client::systems::render::Render as ClientRender;
use npong::local::gamestate::GameState as LocalGame;
use npong::local::systems::render::Render as LocalRender;
use npong::shared::coordinates::Coordinate;
use npong::shared::state::gamestate::GameState;
use npong::{HEIGHT, WIDTH};

fn blank() -> Vec<u8> {
    vec![7u8; (WIDTH * HEIGHT * 4) as usize + 8]
}

fn pixel(frame: &[u8], x: u32, y: u32) -> [u8; 4] {
    let i = ((y * WIDTH + x) * 4) as usize;
    [frame[i], frame[i + 1], frame[i + 2], frame[i + 3]]
}

fn shades() -> Vec<[u8; 2]> {
    (0..=100u32).map(|d| [d as u8, 2]).collect()
}

#[test]
fn background_is_a_gradient() {
    let mut f = blank();
    LocalRender::clear_screen(&mut f);
    assert_eq!(pixel(&f, 0, 0), [0, 0, 0, 255]);
    assert_eq!(pixel(&f, 30, 45), [2, 3, 5, 255]);
    assert_eq!(pixel(&f, 1199, 899), [79, 59, 139, 255]);
    let n = f.len();
    assert_eq!(&f[n - 8..], &[7u8; 8]);
}

#[test]
fn second_player_sees_the_field_turned() {
    let mut f = blank();
    ClientRender::clear_screen(&mut f, 2);
    assert_eq!(pixel(&f, 0, 0), [79, 59, 139, 255]);
    assert_eq!(pixel(&f, 1199, 899), [0, 0, 0, 255]);
    let mut g = blank();
    ClientRender::clear_screen(&mut g, 1);
    assert_eq!(pixel(&g, 0, 0), [0, 0, 0, 255]);
}

#[test]
fn client_draws_paddles_ball_and_walls() {
    let mut gs = GameState::new(1);
    gs.objects.ball.position = Coordinate::from_cartesian(600_000, 450_000);
    let mut f = blank();
    ClientRender::draw_objects(&gs, &mut f, &shades());
    assert_eq!(pixel(&f, 560, 870), [0, 255, 0, 255]);
    assert_eq!(pixel(&f, 639, 884), [0, 255, 0, 255]);
    assert_eq!(pixel(&f, 640, 870), [7, 7, 7, 7]);
    assert_eq!(pixel(&f, 600, 20), [255, 0, 0, 255]);
    assert_eq!(pixel(&f, 600, 450), [0, 255, 2, 255]);
    assert_eq!(pixel(&f, 610, 450), [100, 255, 2, 255]);
    assert_eq!(pixel(&f, 608, 457), [7, 7, 7, 7]);
    assert_eq!(pixel(&f, 5, 5), [200, 235, 255, 255]);
    assert_eq!(pixel(&f, 600, 895), [200, 235, 255, 255]);
}

#[test]
fn client_of_player_two_draws_turned() {
    let gs = GameState::new(2);
    let mut f = blank();
    ClientRender::draw_objects(&gs, &mut f, &shades());
    assert_eq!(pixel(&f, 1199 - 560, 899 - 870), [0, 255, 0, 255]);
    assert_eq!(pixel(&f, 1199 - 600, 899 - 20), [255, 0, 0, 255]);
}

#[test]
fn local_game_draws_its_objects() {
    let gs = LocalGame::new();
    let mut f = blank();
    LocalRender::draw_objects(&gs, &mut f, &shades());
    assert_eq!(pixel(&f, 600, 883), [100, 255, 100, 255]);
    assert_eq!(pixel(&f, 560, 876), [100, 255, 100, 255]);
    assert_eq!(pixel(&f, 600, 17), [255, 100, 100, 255]);
    assert_eq!(pixel(&f, 600, 450), [0, 255, 2, 255]);
    assert_eq!(pixel(&f, 1195, 450), [200, 235, 255, 255]);
    assert_eq!(pixel(&f, 300, 300), [7, 7, 7, 7]);
}

#[test]
fn turned_view_matches_opposite_pixel() {
    let mut f1 = blank();
    let mut f2 = blank();
    ClientRender::clear_screen(&mut f1, 1);
    ClientRender::clear_screen(&mut f2, 2);
    for &(x, y) in &[(0u32, 0u32), (17, 400), (1199, 3), (600, 450)] {
        assert_eq!(pixel(&f2, x, y), pixel(&f1, WIDTH - 1 - x, HEIGHT - 1 - y));
    }
}
