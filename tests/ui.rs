use eddit::keys::{key_action, KeyAction};
use eddit::prefs::{
    cascaded, fallback_scheme, initial_placement, initial_wrap_mode, preferred_scheme, scheme_choice,
    wrap_on_char_toggled, wrap_on_word_toggled, Placement, WrapMode,
};
use eddit::search::{position_after_search, replace_enabled, search_origin, search_sensitivity};

#[test]
fn empty_query_offers_nothing() {
    let r = search_sensitivity("", true, true);
    assert!(!r.up && !r.down && !r.error);
}

#[test]
fn query_found_both_ways() {
    let r = search_sensitivity("foo", true, true);
    assert!(r.up && r.down && !r.error);
}

#[test]
fn query_found_only_ahead() {
    let r = search_sensitivity("foo", true, false);
    assert!(!r.up && r.down && !r.error);
}

#[test]
fn query_found_nowhere_is_error() {
    let r = search_sensitivity("foo", false, false);
    assert!(!r.up && !r.down && r.error);
}

#[test]
fn replace_needs_text_and_selection() {
    assert!(replace_enabled("bar", true));
    assert!(!replace_enabled("bar", false));
    assert!(!replace_enabled("", true));
}

#[test]
fn search_origin_cases() {
    assert_eq!(search_origin(Some((3, 9)), 5, true), 9);
    assert_eq!(search_origin(Some((3, 9)), 5, false), 3);
    assert_eq!(search_origin(None, 5, true), 5);
    assert_eq!(search_origin(None, 5, false), 5);
}

#[test]
fn position_after_search_cases() {
    assert_eq!(position_after_search(4, Some((10, 13)), true), 13);
    assert_eq!(position_after_search(4, Some((1, 2)), false), 1);
    assert_eq!(position_after_search(4, None, true), 4);
}

#[test]
fn shortcuts() {
    assert_eq!(key_action('s' as u32, true, false), KeyAction::Save);
    assert_eq!(key_action('o' as u32, true, false), KeyAction::Open);
    assert_eq!(key_action('f' as u32, true, false), KeyAction::ShowSearch);
    assert_eq!(key_action(0xff1b, false, true), KeyAction::HideSearch);
    assert_eq!(key_action(0xff1b, true, true), KeyAction::HideSearch);
    assert_eq!(key_action('s' as u32, false, false), KeyAction::Nothing);
    assert_eq!(key_action('x' as u32, true, false), KeyAction::Nothing);
}

#[test]
fn stored_wrap_flags() {
    assert_eq!(initial_wrap_mode(true, true), WrapMode::Char);
    assert_eq!(initial_wrap_mode(true, false), WrapMode::Word);
    assert_eq!(initial_wrap_mode(false, true), WrapMode::Off);
    assert_eq!(initial_wrap_mode(false, false), WrapMode::Off);
}

#[test]
fn wrap_toggles() {
    let on = wrap_on_word_toggled(true);
    assert_eq!(on.mode, WrapMode::Word);
    assert!(!on.clear_char);
    let off = wrap_on_word_toggled(false);
    assert_eq!(off.mode, WrapMode::Off);
    assert!(off.clear_char);
    assert_eq!(wrap_on_char_toggled(true, true), Some(WrapMode::Char));
    assert_eq!(wrap_on_char_toggled(false, true), Some(WrapMode::Char));
    assert_eq!(wrap_on_char_toggled(true, false), Some(WrapMode::Word));
    assert_eq!(wrap_on_char_toggled(false, false), None);
}

#[test]
fn schemes() {
    assert_eq!(preferred_scheme(true), "eddit-dark");
    assert_eq!(preferred_scheme(false), "eddit-light");
    assert_eq!(fallback_scheme(), "Classic");
}

#[test]
fn placement_and_cascade() {
    assert_eq!(initial_placement(-1, -1), Placement::Center);
    assert_eq!(initial_placement(-1, 40), Placement::At(-1, 40));
    assert_eq!(initial_placement(100, 200), Placement::At(100, 200));
    assert_eq!(cascaded(100), 120);
    assert_eq!(cascaded(-1), 19);
    assert_eq!(cascaded(i32::MAX - 20), i32::MAX);
    assert_eq!(cascaded(i32::MAX - 5), i32::MAX);
}

#[test]
fn scheme_choice_falls_back() {
    assert_eq!(scheme_choice(true, true, true), Some("eddit-dark"));
    assert_eq!(scheme_choice(false, true, false), Some("eddit-light"));
    assert_eq!(scheme_choice(true, false, true), Some("Classic"));
    assert_eq!(scheme_choice(false, false, false), None);
}
