use cca::picker::{
    get_pixel_color, screen_size_fits, MagnifierCell, MagnifierLayout, magnifier_pixel, KeyOutcome, PickerKey, PickerState, CAPTURED_PIXELS,
    CAPTURED_PIXELS_MAX, CAPTURED_PIXELS_MIN, INITIAL_ZOOM_FACTOR, ZOOM_MAX, ZOOM_MIN,
};

/// A 2x2 BGRA capture: (10,20,30) (40,50,60) / (70,80,90) (100,110,120), as RGB.
fn capture() -> Vec<u8> {
    vec![30, 20, 10, 255, 60, 50, 40, 255, 90, 80, 70, 255, 120, 110, 100, 255]
}

fn session(fg: bool, continue_mode: bool) -> PickerState {
    let mut s = PickerState::new();
    s.set_screen_size(2, 2);
    s.start(fg);
    s.continue_mode = continue_mode;
    s
}

#[test]
fn pixel_colour_is_read_blue_first() {
    let data = capture();
    assert_eq!(get_pixel_color(&data, 2, 2, 0, 0), (10, 20, 30));
    assert_eq!(get_pixel_color(&data, 2, 2, 1, 0), (40, 50, 60));
    assert_eq!(get_pixel_color(&data, 2, 2, 0, 1), (70, 80, 90));
    assert_eq!(get_pixel_color(&data, 2, 2, 1, 1), (100, 110, 120));
}

#[test]
fn pixel_colour_off_screen_or_missing_is_black() {
    let data = capture();
    assert_eq!(get_pixel_color(&data, 2, 2, -1, 0), (0, 0, 0));
    assert_eq!(get_pixel_color(&data, 2, 2, 2, 0), (0, 0, 0));
    assert_eq!(get_pixel_color(&data, 2, 2, 0, 2), (0, 0, 0));
    assert_eq!(get_pixel_color(&data[..8], 2, 2, 0, 1), (0, 0, 0));
    assert_eq!(get_pixel_color(&[], 0, 0, 0, 0), (0, 0, 0));
}

#[test]
fn magnifier_greys() {
    let data = capture();
    assert_eq!(magnifier_pixel(&data, 2, 2, 1, 1), (100, 110, 120));
    assert_eq!(magnifier_pixel(&data, 2, 2, 5, 1), (64, 64, 64));
    assert_eq!(magnifier_pixel(&data[..8], 2, 2, 1, 1), (128, 128, 128));
}

#[test]
fn new_state_values() {
    let s = PickerState::new();
    assert_eq!((s.cursor_x, s.cursor_y), (0, 0));
    assert_eq!(s.color, (0, 0, 0));
    assert!(s.fg_mode && !s.continue_mode && !s.quit);
    assert_eq!(s.zoom, INITIAL_ZOOM_FACTOR);
    assert_eq!(s.captured, CAPTURED_PIXELS);
    assert_eq!((s.screen_width, s.screen_height), (0, 0));
}

#[test]
fn reset_keeps_screen_size() {
    let mut s = session(false, true);
    s.fg_color = Some((1, 2, 3));
    s.quit = true;
    s.zoom = 40;
    s.reset();
    assert_eq!((s.screen_width, s.screen_height), (2, 2));
    assert_eq!(s.fg_color, None);
    assert!(s.fg_mode && !s.continue_mode && !s.quit);
    assert_eq!(s.zoom, INITIAL_ZOOM_FACTOR);
}

#[test]
fn cursor_move_samples_colour() {
    let data = capture();
    let mut s = session(true, false);
    s.update_cursor_pos(&data, 1, 0);
    assert_eq!((s.cursor_x, s.cursor_y, s.color), (1, 0, (40, 50, 60)));
    s.update_cursor_pos(&data, 9, 9);
    assert_eq!(s.color, (0, 0, 0));
}

#[test]
fn single_pick_ends_session() {
    let data = capture();
    let mut s = session(false, false);
    s.update_cursor_pos(&data, 0, 1);
    assert!(s.select_color());
    assert!(s.quit);
    assert_eq!(s.bg_color, Some((70, 80, 90)));
    assert_eq!(s.fg_color, None);
    let r = s.result();
    assert_eq!(r.background, Some((70, 80, 90)));
    assert_eq!(r.foreground, None);
    assert!(!r.continue_mode);
}

#[test]
fn continue_mode_picks_both_colours() {
    let data = capture();
    let mut s = session(true, true);
    s.update_cursor_pos(&data, 0, 0);
    assert!(!s.select_color());
    assert!(!s.quit);
    assert!(!s.fg_mode);
    s.update_cursor_pos(&data, 1, 1);
    assert!(s.select_color());
    assert!(s.quit);
    assert_eq!(s.fg_color, Some((10, 20, 30)));
    assert_eq!(s.bg_color, Some((100, 110, 120)));
    assert!(s.result().continue_mode);
}

#[test]
fn keys() {
    let mut s = session(true, false);
    assert_eq!(s.handle_key(PickerKey::C, false, 0, 0), KeyOutcome::Redraw);
    assert!(s.continue_mode);
    assert_eq!(s.handle_key(PickerKey::Left, false, 10, 20), KeyOutcome::MoveCursor(9, 20));
    assert_eq!(s.handle_key(PickerKey::Right, true, 10, 20), KeyOutcome::MoveCursor(60, 20));
    assert_eq!(s.handle_key(PickerKey::Up, true, 10, 20), KeyOutcome::MoveCursor(10, -30));
    assert_eq!(s.handle_key(PickerKey::Down, false, 10, 20), KeyOutcome::MoveCursor(10, 21));
    assert_eq!(s.handle_key(PickerKey::Other, false, 0, 0), KeyOutcome::Ignored);
    // Continue mode: the first choice switches mode and redraws.
    assert_eq!(s.handle_key(PickerKey::Space, false, 0, 0), KeyOutcome::Redraw);
    assert!(!s.fg_mode);
    assert_eq!(s.handle_key(PickerKey::Return, false, 0, 0), KeyOutcome::Quit);
    assert!(s.quit);
    let mut t = session(true, false);
    assert_eq!(t.handle_key(PickerKey::Escape, false, 0, 0), KeyOutcome::Quit);
    assert!(t.quit);
    assert_eq!(t.fg_color, None);
}

#[test]
fn zoom_and_capture_bounds() {
    let mut s = session(true, false);
    for _ in 0..100 {
        s.handle_key(PickerKey::I, false, 0, 0);
    }
    assert_eq!(s.zoom, ZOOM_MAX);
    for _ in 0..100 {
        s.handle_wheel(false, -120);
    }
    assert_eq!(s.zoom, ZOOM_MIN);
    s.handle_wheel(false, 120);
    assert_eq!(s.zoom, ZOOM_MIN + 2);
    assert_eq!(s.captured, CAPTURED_PIXELS);
    s.handle_key(PickerKey::I, true, 0, 0);
    assert_eq!(s.captured, CAPTURED_PIXELS + 2);
    for _ in 0..100 {
        s.handle_wheel(true, 120);
    }
    assert_eq!(s.captured, CAPTURED_PIXELS_MAX);
    for _ in 0..100 {
        s.handle_key(PickerKey::O, true, 0, 0);
    }
    assert_eq!(s.captured, CAPTURED_PIXELS_MIN);
}

#[test]
fn arc_labels_follow_mode() {
    let mut s = session(true, true);
    s.color = (255, 255, 255);
    let (fg, bg) = s.arc_labels();
    let fg = fg.unwrap();
    assert!(bg.is_none());
    assert_eq!(fg.text, "Foreground - #FFFFFF");
    assert!(fg.dark_text);
    assert!(fg.badge);
    s.select_color();
    s.color = (0, 0, 128);
    let (fg, bg) = s.arc_labels();
    let fg = fg.unwrap();
    let bg = bg.unwrap();
    assert_eq!(fg.color, (255, 255, 255));
    assert!(!fg.badge);
    assert_eq!(bg.text, "Background - #000080");
    assert!(!bg.dark_text);
    assert!(bg.badge);
    let mut t = session(false, false);
    t.color = (1, 2, 3);
    let (fg, bg) = t.arc_labels();
    assert!(fg.is_none());
    assert_eq!(bg.unwrap().color, (1, 2, 3));
    t.fg_mode = true;
    t.bg_color = None;
    t.fg_color = None;
    let (_, bg) = t.arc_labels();
    assert!(bg.is_none());
    let unchosen = PickerState { fg_mode: false, fg_color: Some((9, 9, 9)), ..session(false, false) };
    assert_eq!(unchosen.arc_labels().0.unwrap().color, (9, 9, 9));
}

#[test]
fn screen_size_limits() {
    assert!(screen_size_fits(0, 0));
    assert!(screen_size_fits(-5, 100));
    assert!(screen_size_fits(1920, 1080));
    assert!(screen_size_fits(536870911, 1));
    assert!(!screen_size_fits(536870912, 1));
    assert!(!screen_size_fits(i32::MAX, i32::MAX));
}

#[test]
fn magnifier_layout_around_cursor() {
    let mut s = session(true, false);
    s.cursor_x = 100;
    s.cursor_y = 200;
    assert!(s.in_bounds());
    // captured 8, zoom 20: disc of radius 80.
    assert_eq!(
        s.magnifier_layout(),
        MagnifierLayout {
            inner_radius: 80,
            outer_radius: 100,
            reticle: (90, 190, 20),
            label_box: (45, 305, 110, 22),
            badge_center: None,
        }
    );
    s.continue_mode = true;
    assert_eq!(s.magnifier_layout().badge_center, Some((175, 125)));
    s.zoom = 51;
    assert!(!s.in_bounds());
}

#[test]
fn magnifier_cells_row_by_row() {
    let data = capture();
    let mut s = session(true, false);
    s.cursor_x = 1;
    s.cursor_y = 1;
    let cells = s.magnifier_cells(&data);
    assert_eq!(cells.len(), 64);
    // Top-left cell shows screen pixel (1 - 4, 1 - 4): off screen.
    assert_eq!(cells[0], MagnifierCell { left: -79, top: -79, size: 20, color: (64, 64, 64) });
    // Row 3, column 3 shows screen pixel (0, 0).
    assert_eq!(cells[3 * 8 + 3].color, (10, 20, 30));
    assert_eq!((cells[3 * 8 + 3].left, cells[3 * 8 + 3].top), (1 - 80 + 60, 1 - 80 + 60));
    // Row 4, column 4 is under the cursor.
    assert_eq!(cells[4 * 8 + 4].color, (100, 110, 120));
    assert_eq!(cells[4 * 8 + 5].color, (64, 64, 64));
    s.captured = 9;
    assert_eq!(s.magnifier_cells(&data).len(), 81);
}
