use xr_compat::hand::Hand;
use xr_compat::text::{contains, replace, same_text};
use xr_compat::translation::{translate, translate_and_validate, PathTranslation};

fn rule(from: &'static str, to: &'static str, stop: bool) -> PathTranslation {
    PathTranslation { from, to, stop }
}

#[test]
fn replace_swaps_every_occurrence() {
    assert_eq!(replace("abc", "b", "xy"), "axyc");
    assert_eq!(replace("input/grip/grip", "grip", "squeeze"), "input/squeeze/squeeze");
    assert_eq!(replace("aaa", "aa", "b"), "ba");
    assert_eq!(replace("abc", "x", "y"), "abc");
    assert_eq!(replace("", "x", "y"), "");
    assert_eq!(replace("abc", "abc", ""), "");
}

#[test]
fn replace_with_empty_pattern_matches_between_characters() {
    assert_eq!(replace("abc", "", "-"), "-a-b-c-");
    assert_eq!(replace("", "", "-"), "-");
    assert_eq!(replace("abc", "", "-"), "abc".replace("", "-"));
}

#[test]
fn replace_agrees_with_the_standard_library() {
    let cases = [
        ("input/trigger/pull", "pull", "value"),
        ("aXbXc", "X", "--"),
        ("grüße/größe", "ß", "ss"),
        ("ababab", "aba", "c"),
    ];
    for (hay, from, to) in cases {
        assert_eq!(replace(hay, from, to), hay.replace(from, to));
    }
}

#[test]
fn contains_finds_substrings() {
    assert!(contains("input/grip/pose", "grip"));
    assert!(contains("input/grip/pose", "pose"));
    assert!(contains("input/grip/pose", ""));
    assert!(contains("", ""));
    assert!(!contains("input/grip/pose", "squeeze"));
    assert!(!contains("grip", "input/grip"));
    assert!(!contains("", "a"));
}

#[test]
fn same_text_compares_characters() {
    assert!(same_text("abc", "abc"));
    assert!(same_text("", ""));
    assert!(!same_text("abc", "abd"));
    assert!(!same_text("abc", "ab"));
    assert!(!same_text("ab", "abc"));
}

#[test]
fn path_without_matching_rule_is_unchanged() {
    let table = vec![rule("trigger/click", "trigger/value", true), rule("joystick", "thumbstick", true)];
    assert_eq!(translate("input/grip/pose", &table), "input/grip/pose");
    assert_eq!(translate("input/grip/pose", &Vec::new()), "input/grip/pose");
}

#[test]
fn rules_apply_in_declared_order_in_one_pass() {
    let first = vec![rule("pull", "value", false)];
    assert_eq!(translate("input/grip/pull", &first), "input/grip/value");

    let table = vec![rule("pull", "value", false), rule("grip", "squeeze", true)];
    assert_eq!(translate("input/grip/pull", &table), "input/squeeze/value");
}

#[test]
fn earlier_rules_are_not_revisited() {
    // The second rule brings "pull" into the path, but the first rule has had its turn.
    let table = vec![rule("pull", "value", false), rule("grip", "pull", false)];
    assert_eq!(translate("input/grip/click", &table), "input/pull/click");
}

#[test]
fn stopping_rule_ends_the_pass() {
    let table = vec![rule("grip", "squeeze", true), rule("squeeze", "force", false)];
    assert_eq!(translate("input/grip/click", &table), "input/squeeze/click");
    // A stopping rule that does not apply lets the pass go on.
    assert_eq!(translate("input/squeeze/click", &table), "input/force/click");
}

#[test]
fn passing_rule_lets_later_rules_rewrite_its_result() {
    let table = vec![rule("grip", "squeeze", false), rule("squeeze/click", "squeeze/force", true)];
    assert_eq!(translate("input/grip/click", &table), "input/squeeze/force");
}

#[test]
fn translation_is_repeatable() {
    let table = vec![rule("pull", "value", false), rule("grip", "squeeze", true)];
    let once = translate("input/grip/pull", &table);
    let again = translate("input/grip/pull", &table);
    assert_eq!(once, again);
}

#[test]
fn translated_path_must_be_legal() {
    let table = vec![rule("grip", "squeeze", true)];
    let legal = vec![
        "/user/hand/left/input/squeeze/click".to_string(),
        "/user/hand/right/input/squeeze/click".to_string(),
    ];
    assert_eq!(
        translate_and_validate(&table, &legal, Hand::Left, "input/grip/click"),
        Ok("/user/hand/left/input/squeeze/click".to_string())
    );
    assert_eq!(
        translate_and_validate(&table, &legal, Hand::Right, "input/grip/click"),
        Ok("/user/hand/right/input/squeeze/click".to_string())
    );
    let refused = translate_and_validate(&table, &legal, Hand::Left, "input/grip/pose").unwrap_err();
    assert_eq!(refused.path, "input/grip/pose");
    assert_eq!(refused.translated, "/user/hand/left/input/squeeze/pose");
}

#[test]
fn nothing_is_legal_without_legal_paths() {
    let refused =
        translate_and_validate(&Vec::new(), &Vec::new(), Hand::Right, "input/a/click").unwrap_err();
    assert_eq!(refused.path, "input/a/click");
    assert_eq!(refused.translated, "/user/hand/right/input/a/click");
}
