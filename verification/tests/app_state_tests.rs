use cca::color_picker::{
    foreground_mode, format_color, format_report_line, mode_hex_label, no_color_selected, report,
    session_result,
};
use cca::common::ColorPickerResult;
use cca::mac_keys::{mac_key_action, MacKeyAction};
use cca::picker::PickerState;
use cca::store::ColorStore;

#[test]
fn report_lines_for_chosen_colours() {
    let r = ColorPickerResult { foreground: Some((255, 0, 128)), background: Some((7, 42, 100)), continue_mode: true };
    let lines = report(&r);
    assert_eq!(lines, vec![
        "Foreground: RGB(255, 0, 128) | HEX: #FF0080".to_string(),
        "Background: RGB(7, 42, 100) | HEX: #072A64".to_string(),
    ]);
    assert!(!no_color_selected(&r));
    let none = ColorPickerResult::default();
    assert!(report(&none).is_empty());
    assert!(no_color_selected(&none));
    let bg_only = ColorPickerResult { foreground: None, background: Some((0, 0, 0)), continue_mode: false };
    assert_eq!(report(&bg_only), vec!["Background: RGB(0, 0, 0) | HEX: #000000".to_string()]);
    assert!(!no_color_selected(&bg_only));
}

#[test]
fn report_line_and_colour_format() {
    assert_eq!(format_report_line("L", 9, 10, 99), "L: RGB(9, 10, 99) | HEX: #090A63");
    assert_eq!(format_color(255, 0, 128), "#FF0080");
}

#[test]
fn foreground_unless_bg_flag() {
    assert!(foreground_mode(&vec!["picker".to_string()]));
    assert!(!foreground_mode(&vec!["picker".to_string(), "--bg".to_string()]));
    assert!(foreground_mode(&vec!["picker".to_string(), "--bgx".to_string()]));
    assert!(foreground_mode(&vec![]));
}

#[test]
fn mode_label_and_session_result() {
    let mut s = PickerState::new();
    s.color = (255, 255, 0);
    assert_eq!(mode_hex_label(&s), ("FG: #FFFF00".to_string(), true));
    s.fg_mode = false;
    s.color = (0, 0, 0);
    assert_eq!(mode_hex_label(&s), ("BG: #000000".to_string(), false));
    s.fg_color = Some((1, 1, 1));
    let r = session_result(&s);
    assert_eq!(r.foreground, Some((1, 1, 1)));
    assert_eq!(r.background, None);
}

#[test]
fn mac_keys_map() {
    assert_eq!(mac_key_action(53, false), MacKeyAction::Stop);
    assert_eq!(mac_key_action(36, true), MacKeyAction::SelectAndStop);
    assert_eq!(mac_key_action(123, false), MacKeyAction::Move(-1, 0));
    assert_eq!(mac_key_action(124, true), MacKeyAction::Move(50, 0));
    assert_eq!(mac_key_action(125, true), MacKeyAction::Move(0, -50));
    assert_eq!(mac_key_action(126, false), MacKeyAction::Move(0, 1));
    assert_eq!(mac_key_action(0, false), MacKeyAction::Ignore);
}

#[test]
fn store_updates() {
    let mut s = ColorStore::default();
    assert_eq!(s.foreground_rgb, (0, 0, 0));
    assert_eq!(s.background_rgb, (255, 255, 255));
    assert!(!s.continue_mode);
    assert!(s.update_store("foreground", 1, 2, 3));
    assert_eq!(s.get_store().foreground_rgb, (1, 2, 3));
    assert!(s.update_store("background", 4, 5, 6));
    assert_eq!(s.background_rgb, (4, 5, 6));
    assert!(!s.update_store("middle", 7, 8, 9));
    assert_eq!((s.foreground_rgb, s.background_rgb), ((1, 2, 3), (4, 5, 6)));
    let res = ColorPickerResult { foreground: None, background: Some((9, 9, 9)), continue_mode: true };
    let back = s.pick_color(res);
    assert_eq!(back.background, Some((9, 9, 9)));
    assert_eq!(s.foreground_rgb, (1, 2, 3));
    assert_eq!(s.background_rgb, (9, 9, 9));
    assert!(s.continue_mode);
    s.clear_store();
    assert_eq!(s.foreground_rgb, (0, 0, 0));
    assert_eq!(s.background_rgb, (255, 255, 255));
    assert!(!s.continue_mode);
}
