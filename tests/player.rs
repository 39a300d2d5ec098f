use gifterm::player::{Player, RenderError};
use gifterm::render::{clear_area, draw_frame, Area, DisposalMethod, Frame};
use gifterm::FRAME_DELAY_MS;

fn solid(dispose: DisposalMethod, left: u16, top: u16, width: u16, height: u16, rgba: [u8; 4]) -> Frame {
    let mut buffer = Vec::new();
    for _ in 0..(width as usize * height as usize) {
        buffer.extend_from_slice(&rgba);
    }
    Frame { dispose, left, top, width, height, interlaced: false, buffer }
}

fn text(bytes: &[u8]) -> String {
    String::from_utf8(bytes.to_vec()).unwrap()
}

#[test]
fn first_frame_clears_nothing() {
    let mut p = Player::new();
    assert_eq!(p.pending_clear(), None);
    let out = p.next_frame(&solid(DisposalMethod::Background, 0, 0, 1, 1, [1, 2, 3, 4]));
    assert!(out.clear.is_none());
    assert!(out.draw.is_ok());
}

#[test]
fn two_frames_background_then_none() {
    let red = solid(DisposalMethod::Background, 0, 0, 2, 2, [255, 0, 0, 255]);
    let blue = solid(DisposalMethod::Any, 0, 0, 2, 2, [0, 0, 255, 255]);
    let mut p = Player::new();

    let first = p.next_frame(&red);
    assert!(first.clear.is_none());
    let drawn = first.draw.unwrap();
    assert_eq!(
        text(&drawn),
        "\x1b[1;2H\x1b[48;2;255;0;0m  \x1b[1;4H\x1b[48;2;255;0;0m  \
         \x1b[2;2H\x1b[48;2;255;0;0m  \x1b[2;4H\x1b[48;2;255;0;0m  "
    );

    let second = p.next_frame(&blue);
    assert_eq!(
        text(&second.clear.unwrap()),
        "\x1b[1;2H \x1b[1;4H \x1b[2;2H \x1b[2;4H "
    );
    assert_eq!(
        text(&second.draw.unwrap()),
        "\x1b[1;2H\x1b[48;2;0;0;255m  \x1b[1;4H\x1b[48;2;0;0;255m  \
         \x1b[2;2H\x1b[48;2;0;0;255m  \x1b[2;4H\x1b[48;2;0;0;255m  "
    );
    assert_eq!(p.pending_clear(), None);
    assert_eq!(FRAME_DELAY_MS, 75);
}

#[test]
fn single_white_pixel_frame() {
    let mut p = Player::new();
    let out = p.next_frame(&solid(DisposalMethod::Any, 0, 0, 1, 1, [255, 255, 255, 255]));
    assert!(out.clear.is_none());
    assert_eq!(text(&out.draw.unwrap()), "\x1b[1;2H\x1b[48;2;255;255;255m  ");
}

#[test]
fn other_disposals_clear_nothing() {
    for d in [DisposalMethod::Any, DisposalMethod::Keep, DisposalMethod::Previous] {
        let mut p = Player::new();
        p.next_frame(&solid(d, 1, 1, 2, 2, [9, 9, 9, 255]));
        assert_eq!(p.pending_clear(), None);
        let out = p.next_frame(&solid(DisposalMethod::Any, 0, 0, 1, 1, [0, 0, 0, 255]));
        assert!(out.clear.is_none());
    }
}

#[test]
fn background_clears_own_area_once() {
    let mut p = Player::new();
    p.next_frame(&solid(DisposalMethod::Background, 3, 4, 2, 1, [1, 1, 1, 255]));
    assert_eq!(p.pending_clear(), Some(Area { left: 3, top: 4, width: 2, height: 1 }));
    let out = p.next_frame(&solid(DisposalMethod::Keep, 0, 0, 5, 5, [2, 2, 2, 255]));
    assert_eq!(out.clear.unwrap(), clear_area(3, 4, 2, 1));
    let out = p.next_frame(&solid(DisposalMethod::Keep, 0, 0, 1, 1, [2, 2, 2, 255]));
    assert!(out.clear.is_none());
}

#[test]
fn interlaced_frame_is_not_drawn() {
    let mut p = Player::new();
    p.next_frame(&solid(DisposalMethod::Background, 0, 0, 1, 1, [5, 5, 5, 255]));
    let mut f = solid(DisposalMethod::Keep, 0, 0, 2, 2, [7, 7, 7, 255]);
    f.interlaced = true;
    let out = p.next_frame(&f);
    assert_eq!(out.draw, Err(RenderError::Interlaced));
    assert_eq!(out.clear.unwrap(), clear_area(0, 0, 1, 1));
    assert_eq!(p.pending_clear(), Some(Area { left: 0, top: 0, width: 1, height: 1 }));
}

#[test]
fn frame_draw_matches_draw_frame() {
    let f = solid(DisposalMethod::Keep, 4, 0, 3, 1, [12, 34, 56, 78]);
    let mut p = Player::new();
    assert_eq!(p.next_frame(&f).draw.unwrap(), draw_frame(&f));
}
