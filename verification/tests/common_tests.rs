use cca::common::{
    calculate_luminance_milli, format_hex_color, parse_hex_color, format_labeled_hex_color, should_use_dark_text,
    ColorPickerResult,
};

#[test]
fn test_dark_text() {
    assert!(should_use_dark_text(255, 255, 255));
    assert!(!should_use_dark_text(0, 0, 0));
}

#[test]
fn test_format_hex() {
    assert_eq!(format_hex_color(255, 0, 128), "#FF0080");
    assert_eq!(format_hex_color(0, 0, 0), "#000000");
}

#[test]
fn test_format_labeled() {
    assert_eq!(format_labeled_hex_color("Foreground", 255, 0, 0), "Foreground - #FF0000");
    assert_eq!(format_labeled_hex_color("Background", 0, 255, 0), "Background - #00FF00");
}

#[test]
fn luminance_in_thousandths() {
    assert_eq!(calculate_luminance_milli(0, 0, 0), 0);
    assert_eq!(calculate_luminance_milli(255, 255, 255), 255000);
    assert_eq!(calculate_luminance_milli(255, 0, 0), 76245);
    assert_eq!(calculate_luminance_milli(0, 255, 0), 149685);
    assert_eq!(calculate_luminance_milli(0, 0, 255), 29070);
}

#[test]
fn dark_text_threshold_is_strict() {
    // Luminance exactly 128: white text.
    assert!(!should_use_dark_text(1, 189, 147));
    assert!(!should_use_dark_text(128, 128, 128));
    // Just above 128.
    assert!(should_use_dark_text(129, 128, 128));
    assert!(should_use_dark_text(0, 255, 0));
    assert!(!should_use_dark_text(255, 0, 0));
    assert!(!should_use_dark_text(0, 0, 255));
}

#[test]
fn dark_text_is_monotone_in_each_component() {
    for v in 0..=255u16 {
        let v = v as u8;
        if should_use_dark_text(v, 100, 100) && v < 255 {
            assert!(should_use_dark_text(v + 1, 100, 100));
        }
    }
}

#[test]
fn hex_uses_two_upper_case_digits_per_component() {
    assert_eq!(format_hex_color(10, 171, 255), "#0AABFF");
    assert_eq!(format_hex_color(1, 2, 3), "#010203");
    assert_eq!(format_hex_color(255, 255, 255), "#FFFFFF");
    assert_eq!(format_hex_color(0x9f, 0xe0, 0x5c), "#9FE05C");
}

#[test]
fn labeled_hex_is_prefix_separator_and_hex() {
    for (r, g, b) in [(0u8, 0u8, 0u8), (12, 200, 99), (255, 128, 1)] {
        let expected = format!("{} - {}", "X", format_hex_color(r, g, b));
        assert_eq!(format_labeled_hex_color("X", r, g, b), expected);
    }
    assert_eq!(format_labeled_hex_color("", 1, 2, 3), " - #010203");
}

#[test]
fn default_result_is_empty() {
    let r = ColorPickerResult::default();
    assert_eq!(r.foreground, None);
    assert_eq!(r.background, None);
    assert!(!r.continue_mode);
}

#[test]
fn hex_code_reads_back() {
    assert_eq!(parse_hex_color("#FF0080"), (255, 0, 128));
    assert_eq!(parse_hex_color("#ff0a0B"), (255, 10, 11));
    assert_eq!(parse_hex_color("#GG0000"), (0, 0, 0));
    assert_eq!(parse_hex_color("#+F-1 1"), (15, 0, 0));
    assert_eq!(parse_hex_color("#123456 and more"), (0x12, 0x34, 0x56));
    for r in [0u8, 1, 15, 16, 127, 128, 200, 255] {
        for g in [0u8, 9, 10, 99, 255] {
            let code = format_hex_color(r, g, 255 - r);
            assert_eq!(parse_hex_color(&code), (r, g, 255 - r));
        }
    }
}

#[test]
fn hex_pairs_read_like_from_str_radix() {
    for a in 32u8..127 {
        for b in 32u8..127 {
            let code = format!("#{}{}0000", a as char, b as char);
            let expected = u8::from_str_radix(&code[1..3], 16).unwrap_or(0);
            assert_eq!(parse_hex_color(&code).0, expected, "pair {:?}", &code[1..3]);
        }
    }
}
