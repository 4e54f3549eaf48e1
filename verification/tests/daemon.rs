use keyboard_core::daemon::Board;
use keyboard_core::daemon::Color;
use keyboard_core::daemon::Daemon;
use keyboard_core::Error;

fn two_board_daemon() -> Daemon {
    let boards = vec![
        Board::new(String::from("launch_1"), 4, 100),
        Board::new(String::from("launch_lite_1"), 2, 255),
    ];
    Daemon::connect(Some(boards)).unwrap()
}

#[test]
fn over_max_brightness_fails_and_leaves_state_unchanged() {
    let mut d = two_board_daemon();
    d.set_brightness(0, 0, 42).unwrap();
    let max = d.max_brightness(0).unwrap();
    assert_eq!(d.set_brightness(0, 0, max + 1), Err(Error::InvalidRange));
    assert_eq!(d.brightness(0, 0), Ok(42));
}

#[test]
fn negative_brightness_fails_and_leaves_state_unchanged() {
    let mut d = two_board_daemon();
    assert_eq!(d.set_brightness(1, 1, -1), Err(Error::InvalidRange));
    assert_eq!(d.brightness(1, 1), Ok(0));
}

#[test]
fn zero_boards_enumerate_without_error() {
    let d = Daemon::connect(Some(Vec::new())).unwrap();
    assert_eq!(d.boards(), Ok(Vec::new()));
}

#[test]
fn no_control_channel_is_daemon_unavailable() {
    assert!(matches!(
        Daemon::connect(None),
        Err(Error::DaemonUnavailable)
    ));
}

#[test]
fn boards_returns_one_handle_per_board() {
    let d = two_board_daemon();
    assert_eq!(d.boards(), Ok(vec![0, 1]));
}

#[test]
fn stale_handle_is_unknown_board() {
    let mut d = two_board_daemon();
    assert_eq!(d.board_model(2).err(), Some(Error::UnknownBoard));
    assert_eq!(d.max_brightness(5), Err(Error::UnknownBoard));
    assert_eq!(d.brightness(2, 0), Err(Error::UnknownBoard));
    assert_eq!(d.set_brightness(2, 0, 1), Err(Error::UnknownBoard));
    assert_eq!(d.color(9), Err(Error::UnknownBoard));
    let c = Color { red: 1, green: 2, blue: 3 };
    assert_eq!(d.set_color(9, c), Err(Error::UnknownBoard));
}

#[test]
fn layer_out_of_range_is_invalid_range() {
    let mut d = two_board_daemon();
    assert_eq!(d.brightness(1, 2), Err(Error::InvalidRange));
    assert_eq!(d.set_brightness(1, 2, 10), Err(Error::InvalidRange));
}

#[test]
fn set_brightness_within_bounds_is_visible_per_layer() {
    let mut d = two_board_daemon();
    d.set_brightness(0, 0, 100).unwrap();
    d.set_brightness(0, 3, 7).unwrap();
    assert_eq!(d.brightness(0, 0), Ok(100));
    assert_eq!(d.brightness(0, 3), Ok(7));
    assert_eq!(d.brightness(0, 1), Ok(0));
    assert_eq!(d.brightness(1, 0), Ok(0));
}

#[test]
fn set_color_per_board() {
    let mut d = two_board_daemon();
    let teal = Color { red: 0, green: 128, blue: 128 };
    d.set_color(1, teal).unwrap();
    assert_eq!(d.color(1), Ok(teal));
    assert_eq!(d.color(0), Ok(Color { red: 0, green: 0, blue: 0 }));
}

#[test]
fn board_accessors() {
    let d = two_board_daemon();
    assert_eq!(d.board_model(0).unwrap(), "launch_1");
    assert_eq!(d.board_model(1).unwrap(), "launch_lite_1");
    assert_eq!(d.max_brightness(1), Ok(255));

    let b = Board::new(String::from("launch_2"), 3, 50);
    assert_eq!(b.layer_count(), 3);
}
