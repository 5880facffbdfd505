use cca::icc::{
    find_color_space, get_system_color_spaces, mark_current_profile, ColorSpaceSource, ICCProfile,
    ProfileSelection,
};
use cca::menu::{
    menu_check_states, menu_id_from_lowercase, menu_id_to_profile_name, profile_name_to_menu_id,
};

fn names(v: &[ICCProfile]) -> Vec<String> {
    v.iter().map(|p| p.name.clone()).collect()
}

#[test]
fn platform_lists() {
    let w = get_system_color_spaces(ColorSpaceSource::Windows);
    assert_eq!(names(&w), vec!["Auto", "sRGB", "Adobe RGB"]);
    assert_eq!(w[0].description, "Automatic color space detection");
    assert_eq!(w[1].description, "sRGB IEC61966-2.1 (Standard web)");
    assert_eq!(w[2].description, "Adobe RGB (1998)");
    assert!(w.iter().all(|p| !p.is_current));
    let l = get_system_color_spaces(ColorSpaceSource::Linux);
    assert_eq!(names(&l), vec!["Auto", "sRGB"]);
    let o = get_system_color_spaces(ColorSpaceSource::Other);
    assert_eq!(names(&o), vec!["Auto"]);
    let m = get_system_color_spaces(ColorSpaceSource::MacOs(vec![
        Some("Display P3".to_string()),
        None,
        Some("sRGB IEC61966-2.1".to_string()),
    ]));
    assert_eq!(names(&m), vec!["Auto", "Display P3", "sRGB IEC61966-2.1"]);
    assert_eq!(m[1].description, "Display P3");
}

#[test]
fn selection_defaults_to_auto() {
    let mut sel = ProfileSelection::new();
    assert_eq!(sel.get_selected_icc_profile(), None);
    assert_eq!(sel.get_current_profile_name(), "Auto");
    assert_eq!(sel.selected_color_space_name(), None);
    let listed = sel.list_icc_profiles(&get_system_color_spaces(ColorSpaceSource::Windows));
    assert_eq!(listed.iter().map(|p| p.is_current).collect::<Vec<_>>(), vec![true, false, false]);
    sel.select_icc_profile("Adobe RGB".to_string());
    assert_eq!(sel.get_selected_icc_profile(), Some("Adobe RGB".to_string()));
    assert_eq!(sel.get_current_profile_name(), "Adobe RGB");
    assert_eq!(sel.selected_color_space_name(), Some("Adobe RGB".to_string()));
    let listed = sel.list_icc_profiles(&get_system_color_spaces(ColorSpaceSource::Windows));
    assert_eq!(listed.iter().map(|p| p.is_current).collect::<Vec<_>>(), vec![false, false, true]);
    sel.select_icc_profile("Auto".to_string());
    assert_eq!(sel.selected_color_space_name(), None);
    sel.select_icc_profile("Unknown".to_string());
    let listed = sel.list_icc_profiles(&get_system_color_spaces(ColorSpaceSource::Linux));
    assert!(listed.iter().all(|p| !p.is_current));
}

#[test]
fn marking_keeps_names() {
    let base = get_system_color_spaces(ColorSpaceSource::Linux);
    let marked = mark_current_profile(&base, "sRGB");
    assert_eq!(names(&marked), names(&base));
    assert!(!marked[0].is_current && marked[1].is_current);
}

#[test]
fn colour_space_lookup() {
    let spaces = vec![None, Some("A".to_string()), Some("B".to_string()), Some("A".to_string())];
    assert_eq!(find_color_space(&spaces, "A"), Some(1));
    assert_eq!(find_color_space(&spaces, "B"), Some(2));
    assert_eq!(find_color_space(&spaces, "C"), None);
}

#[test]
fn menu_ids() {
    assert_eq!(profile_name_to_menu_id("Adobe RGB"), "icc_profile_adobe_rgb");
    assert_eq!(profile_name_to_menu_id("Display P3"), "icc_profile_display_p3");
    assert_eq!(profile_name_to_menu_id("Auto"), "icc_profile_auto");
    assert_eq!(menu_id_from_lowercase("a b  c"), "icc_profile_a_b__c");
    assert_eq!(profile_name_to_menu_id("ÉCRAN Ü"), "icc_profile_écran_ü");
}

#[test]
fn menu_id_round_trip() {
    let profiles = get_system_color_spaces(ColorSpaceSource::Windows);
    for p in profiles.iter() {
        let id = profile_name_to_menu_id(&p.name);
        assert_eq!(menu_id_to_profile_name(&id, &profiles), Some(p.name.clone()));
    }
    assert_eq!(menu_id_to_profile_name("icc_profile_nothing", &profiles), None);
    assert_eq!(menu_id_to_profile_name("about", &profiles), None);
    let clash = vec![
        ICCProfile { name: "A B".to_string(), description: String::new(), is_current: false },
        ICCProfile { name: "a_b".to_string(), description: String::new(), is_current: false },
    ];
    assert_eq!(menu_id_to_profile_name("icc_profile_a_b", &clash), Some("A B".to_string()));
}

#[test]
fn menu_checks_after_selection() {
    let profiles = get_system_color_spaces(ColorSpaceSource::Windows);
    let states = menu_check_states(&profiles, "sRGB");
    assert_eq!(states, vec![
        ("icc_profile_auto".to_string(), false),
        ("icc_profile_srgb".to_string(), true),
        ("icc_profile_adobe_rgb".to_string(), false),
    ]);
}
