use cca::color_names::{css_colors, exact_color_name, nearest_color_name};

#[test]
fn test_exact_match() {
    assert_eq!(nearest_color_name(255, 0, 0), "red");
    assert_eq!(nearest_color_name(0, 0, 0), "black");
    assert_eq!(nearest_color_name(255, 255, 255), "white");
    assert_eq!(nearest_color_name(255, 165, 0), "orange");
}

#[test]
fn test_nearest_match() {
    assert_eq!(nearest_color_name(254, 1, 1), "red");
    assert_eq!(nearest_color_name(0, 0, 130), "navy");
}

#[test]
fn test_exact_color_name() {
    assert_eq!(exact_color_name(255, 0, 0), Some("red"));
    assert_eq!(exact_color_name(254, 0, 0), None);
}

#[test]
fn duplicate_colours_take_the_first_name() {
    // aqua and cyan share (0, 255, 255); fuchsia and magenta share (255, 0, 255).
    assert_eq!(exact_color_name(0, 255, 255), Some("aqua"));
    assert_eq!(nearest_color_name(0, 255, 255), "aqua");
    assert_eq!(exact_color_name(255, 0, 255), Some("fuchsia"));
    assert_eq!(nearest_color_name(255, 0, 255), "fuchsia");
}

#[test]
fn every_named_colour_is_found_by_both_lookups() {
    let table = css_colors();
    assert_eq!(table.len(), 141);
    for c in table.iter() {
        let exact = exact_color_name(c.r, c.g, c.b).unwrap();
        assert_eq!(nearest_color_name(c.r, c.g, c.b), exact);
        let first = table.iter().find(|d| d.r == c.r && d.g == c.g && d.b == c.b).unwrap();
        assert_eq!(exact, first.name);
    }
}

#[test]
fn nearest_has_minimal_distance() {
    let table = css_colors();
    for (r, g, b) in [(1u8, 2u8, 3u8), (100, 150, 200), (250, 10, 128), (33, 66, 99)] {
        let name = nearest_color_name(r, g, b);
        let d = |c: &cca::color_names::NamedColor| {
            let dr = r as i32 - c.r as i32;
            let dg = g as i32 - c.g as i32;
            let db = b as i32 - c.b as i32;
            dr * dr + dg * dg + db * db
        };
        let best = table.iter().map(|c| d(c)).min().unwrap();
        let first = table.iter().find(|c| d(c) == best).unwrap();
        assert_eq!(name, first.name);
        assert_eq!(exact_color_name(r, g, b).is_some(), best == 0);
    }
}

#[test]
fn gray_between_two_greys() {
    assert_eq!(nearest_color_name(128, 128, 128), "gray");
    assert_eq!(nearest_color_name(130, 128, 127), "gray");
    assert_eq!(exact_color_name(130, 128, 127), None);
}
