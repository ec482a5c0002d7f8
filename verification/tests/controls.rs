use chess_core::controls::{keyboard_input, pointer_tile, tile_is_light, KeyCommand, KeysPressed, Zoom};

fn no_keys() -> KeysPressed {
    KeysPressed {
        r: false,
        equal: false,
        shift_left: false,
        shift_right: false,
        numpad_add: false,
        minus: false,
        numpad_subtract: false,
        escape: false,
    }
}

#[test]
fn no_key_keeps_the_board_as_it_is() {
    assert_eq!(keyboard_input(&no_keys()), KeyCommand { zoom: Zoom::Keep, quit: false });
}

#[test]
fn r_resets_whatever_else_is_pressed() {
    let mut keys = no_keys();
    keys.r = true;
    assert_eq!(keyboard_input(&keys).zoom, Zoom::Reset);
    keys.numpad_add = true;
    keys.minus = true;
    keys.equal = true;
    keys.shift_left = true;
    assert_eq!(keyboard_input(&keys).zoom, Zoom::Reset);
}

#[test]
fn equal_needs_a_shift_key_to_grow() {
    let mut keys = no_keys();
    keys.equal = true;
    assert_eq!(keyboard_input(&keys).zoom, Zoom::Keep);
    keys.shift_left = true;
    assert_eq!(keyboard_input(&keys).zoom, Zoom::Grow);
    keys.shift_left = false;
    keys.shift_right = true;
    assert_eq!(keyboard_input(&keys).zoom, Zoom::Grow);
    keys.equal = false;
    assert_eq!(keyboard_input(&keys).zoom, Zoom::Keep);
}

#[test]
fn keypad_plus_grows_and_wins_over_minus() {
    let mut keys = no_keys();
    keys.numpad_add = true;
    assert_eq!(keyboard_input(&keys).zoom, Zoom::Grow);
    keys.minus = true;
    keys.numpad_subtract = true;
    assert_eq!(keyboard_input(&keys).zoom, Zoom::Grow);
}

#[test]
fn either_minus_shrinks() {
    let mut keys = no_keys();
    keys.minus = true;
    assert_eq!(keyboard_input(&keys).zoom, Zoom::Shrink);
    keys.minus = false;
    keys.numpad_subtract = true;
    assert_eq!(keyboard_input(&keys).zoom, Zoom::Shrink);
    keys.equal = true;
    assert_eq!(keyboard_input(&keys).zoom, Zoom::Shrink);
}

#[test]
fn escape_quits_beside_any_zoom() {
    let mut keys = no_keys();
    keys.escape = true;
    assert_eq!(keyboard_input(&keys), KeyCommand { zoom: Zoom::Keep, quit: true });
    keys.minus = true;
    assert_eq!(keyboard_input(&keys), KeyCommand { zoom: Zoom::Shrink, quit: true });
    keys.r = true;
    assert_eq!(keyboard_input(&keys), KeyCommand { zoom: Zoom::Reset, quit: true });
}

#[test]
fn the_screen_shows_row_zero_at_the_bottom() {
    assert_eq!(pointer_tile(0, 0), Some((7, 0)));
    assert_eq!(pointer_tile(0, 7), Some((0, 0)));
    assert_eq!(pointer_tile(7, 7), Some((0, 7)));
    assert_eq!(pointer_tile(4, 6), Some((1, 4)));
    assert_eq!(pointer_tile(3, 2), Some((5, 3)));
    for column in 0..8usize {
        for row_from_top in 0..8usize {
            assert_eq!(pointer_tile(column, row_from_top), Some((7 - row_from_top, column)));
        }
    }
}

#[test]
fn a_cell_beside_the_board_is_no_tile() {
    assert_eq!(pointer_tile(8, 0), None);
    assert_eq!(pointer_tile(0, 8), None);
    assert_eq!(pointer_tile(8, 8), None);
    assert_eq!(pointer_tile(usize::MAX, 3), None);
    assert_eq!(pointer_tile(3, usize::MAX), None);
}

#[test]
fn tiles_alternate_from_a_dark_corner() {
    assert!(!tile_is_light((0, 0)));
    assert!(tile_is_light((0, 1)));
    assert!(tile_is_light((1, 0)));
    assert!(!tile_is_light((1, 1)));
    assert!(!tile_is_light((7, 7)));
    assert!(tile_is_light((0, 7)));
    assert!(tile_is_light((7, 0)));
    for row in 0..8usize {
        for col in 0..8usize {
            assert_eq!(tile_is_light((row, col)), (1 + row + col) % 2 == 0);
            if col < 7 {
                assert_ne!(tile_is_light((row, col)), tile_is_light((row, col + 1)));
            }
            if row < 7 {
                assert_ne!(tile_is_light((row, col)), tile_is_light((row + 1, col)));
            }
        }
    }
    assert!(tile_is_light((usize::MAX, 0)));
    assert!(!tile_is_light((usize::MAX, usize::MAX)));
}
