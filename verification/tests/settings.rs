use std::collections::BTreeMap;

use tickeys::controls::{AccessPromptChoice, LinkTarget, SettingsControl};
use tickeys::filter_list::{should_mute, FilterList, FilterListMode};
use tickeys::props::{ivar_name_for_getter, ivar_name_for_setter, setter_selector_name};
use tickeys::scheme::{
    audio_file_paths, find_scheme, resolve_scheme_name, scheme_dir, selected_scheme_index,
    AudioScheme,
};
use tickeys::update::{contains_version_field, update_notice};

fn scheme(name: &str, files: &[&str]) -> AudioScheme {
    AudioScheme {
        name: name.to_string(),
        display_name: name.to_uppercase(),
        files: files.iter().map(|f| f.to_string()).collect(),
        non_unique_count: 1,
        key_audio_map: BTreeMap::new(),
    }
}

fn names(l: &FilterList) -> Vec<String> {
    l.names().clone()
}

#[test]
fn mute_decision_follows_mode() {
    assert!(should_mute(0, true));
    assert!(!should_mute(0, false));
    assert!(!should_mute(1, true));
    assert!(should_mute(1, false));
    assert!(!should_mute(2, true));
    assert!(!should_mute(-1, false));
}

#[test]
fn filter_mode_codes() {
    assert_eq!(FilterListMode::BlackList.code(), 0);
    assert_eq!(FilterListMode::WhiteList.code(), 1);
    assert_eq!(FilterListMode::from_code(1), Some(FilterListMode::WhiteList));
    assert_eq!(FilterListMode::from_code(3), None);
}

#[test]
fn filter_list_adds_each_name_once() {
    let mut l = FilterList::new();
    l.add("Terminal.app".to_string());
    l.add("Terminal.app".to_string());
    l.add_all(vec!["Xcode.app".to_string(), "Mail.app".to_string(), "Xcode.app".to_string()]);
    assert_eq!(names(&l), vec!["Terminal.app", "Xcode.app", "Mail.app"]);
    assert_eq!(l.len(), 3);
    assert_eq!(l.get(1), "Xcode.app");
    assert!(l.contains(&"Mail.app".to_string()));
    assert!(!l.contains(&"Safari.app".to_string()));
}

#[test]
fn filter_list_removes_selected_row_only() {
    let mut l = FilterList::from_stored(Some(vec!["A.app".to_string(), "B.app".to_string()]));
    assert!(!l.remove_selected(-1));
    assert_eq!(l.len(), 2);
    assert!(l.remove_selected(0));
    assert_eq!(names(&l), vec!["B.app"]);
    assert_eq!(FilterList::from_stored(None).len(), 0);
}

#[test]
fn app_muting_with_list() {
    let l = FilterList::from_stored(Some(vec!["Terminal.app".to_string()]));
    let t = "Terminal.app".to_string();
    let m = "Mail.app".to_string();
    assert!(l.should_mute_app(0, &t));
    assert!(!l.should_mute_app(0, &m));
    assert!(!l.should_mute_app(1, &t));
    assert!(l.should_mute_app(1, &m));
    assert!(!l.should_mute_app(7, &m));
}

#[test]
fn setter_selector_for_property() {
    assert_eq!(setter_selector_name("tickeys"), "setTickeys:\0");
    assert_eq!(setter_selector_name("filterListMode"), "setFilterListMode:\0");
    assert_eq!(setter_selector_name("user_data"), "setUser_data:\0");
}

#[test]
fn setter_and_getter_ivars_agree() {
    assert_eq!(ivar_name_for_setter("setTickeys:"), "_tickeys");
    assert_eq!(ivar_name_for_getter("tickeys"), "_tickeys");
    assert_eq!(ivar_name_for_setter("setFilterList:"), "_filterList");
    assert_eq!(ivar_name_for_getter("filterList"), "_filterList");
    assert_eq!(ivar_name_for_setter("setUser_data:"), "_user_data");
    assert_eq!(ivar_name_for_setter("setX:"), "_x");
}

#[test]
fn audio_paths_join_dir_and_file() {
    let s = scheme("drum", &["1.wav", "space.wav"]);
    assert_eq!(audio_file_paths("res/data/drum", &s), vec!["res/data/drum/1.wav", "res/data/drum/space.wav"]);
    assert_eq!(scheme_dir("drum"), "data/drum");
}

#[test]
fn stored_scheme_is_validated() {
    let schemes = vec![scheme("bubble", &[]), scheme("drum", &[]), scheme("drum", &[])];
    assert_eq!(resolve_scheme_name(&schemes, None), "bubble");
    assert_eq!(resolve_scheme_name(&schemes, Some("drum".to_string())), "drum");
    assert_eq!(resolve_scheme_name(&schemes, Some("gone".to_string())), "bubble");
    assert_eq!(find_scheme(&schemes, &"drum".to_string()), Some(1));
    assert_eq!(selected_scheme_index(&schemes, &"drum".to_string()), Some(2));
    assert_eq!(find_scheme(&schemes, &"gone".to_string()), None);
    assert_eq!(selected_scheme_index(&schemes, &"gone".to_string()), None);
}

#[test]
fn version_field_is_found() {
    assert!(contains_version_field("{\"Version\": \"0.6.0\", \"WhatsNew\": \"x\"}"));
    assert!(contains_version_field("Version"));
    assert!(!contains_version_field("{\"version\": \"0.6.0\"}"));
    assert!(!contains_version_field("Versio"));
    assert!(!contains_version_field(""));
}

#[test]
fn update_notice_only_for_other_version() {
    assert_eq!(update_notice("0.5.0", "0.5.0", "nothing"), None);
    assert_eq!(
        update_notice("0.5.0", "0.6.0", "new sounds"),
        Some("0.5.0 -> 0.6.0: new sounds".to_string())
    );
}

#[test]
fn control_tags() {
    assert_eq!(LinkTarget::from_tag(0), Some(LinkTarget::Website));
    assert_eq!(LinkTarget::from_tag(1), Some(LinkTarget::Donate));
    assert_eq!(LinkTarget::from_tag(2), None);
    assert_eq!(SettingsControl::from_tag(2), Some(SettingsControl::PitchSlider));
    assert_eq!(SettingsControl::from_tag(0), Some(SettingsControl::SchemePopup));
    assert_eq!(SettingsControl::from_tag(3), None);
    assert_eq!(AccessPromptChoice::from_button(1000), Some(AccessPromptChoice::Quit));
    assert_eq!(AccessPromptChoice::from_button(1001), Some(AccessPromptChoice::CheckAgain));
    assert_eq!(AccessPromptChoice::from_button(1002), None);
}
