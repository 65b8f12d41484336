use annotations_policy::criterion::Criterion;
use annotations_policy::settings::check_annotation_name;
use annotations_policy::settings::is_valid_annotation_name;
use annotations_policy::settings::Settings;

fn passes(keys: Vec<&str>) -> bool {
    let settings = Settings(Criterion::ContainsAllOf {
        values: keys.iter().map(|key| key.to_string()).collect::<Vec<String>>(),
    });
    settings.try_validate().unwrap().is_ok()
}

#[test]
fn test_validation_empty_settings() {
    assert_eq!(passes(vec![]), false);
}

#[test]
fn test_validation_valid_simple() {
    assert_eq!(passes(vec!["my-annotation"]), true);
}

#[test]
fn test_validation_valid_dot() {
    assert_eq!(passes(vec!["my.annotation"]), true);
}

#[test]
fn test_validation_valid_underscore() {
    assert_eq!(passes(vec!["my_annotation"]), true);
}

#[test]
fn test_validation_valid_dns_prefix() {
    assert_eq!(passes(vec!["example.com/my-annotation"]), true);
}

#[test]
fn test_validation_valid_multiple_prefix() {
    assert_eq!(passes(vec!["foo.bar.baz/qux"]), true);
}

#[test]
fn test_validation_valid_short() {
    assert_eq!(passes(vec!["a/b"]), true);
}

#[test]
fn test_validation_valid_alphanumeric() {
    assert_eq!(passes(vec!["abc123"]), true);
}

#[test]
fn test_validation_valid_complex() {
    assert_eq!(passes(vec!["abc/def.ghi_jkl-mno"]), true);
}

#[test]
fn test_validation_invalid_leading_slash() {
    assert_eq!(passes(vec!["/my-annotation"]), false);
}

#[test]
fn test_validation_invalid_missing_key() {
    assert_eq!(passes(vec!["example.com/"]), false);
}

#[test]
fn test_validation_invalid_leading_dash() {
    assert_eq!(passes(vec!["-my-annotation"]), false);
}

#[test]
fn test_validation_invalid_prefix_leading_dash() {
    assert_eq!(passes(vec!["example.com/-my-annotation"]), false);
}

#[test]
fn test_validation_invalid_trailing_dash() {
    assert_eq!(passes(vec!["example.com/my-annotation-"]), false);
}

#[test]
fn test_validation_invalid_space() {
    assert_eq!(passes(vec!["example.com/my annotation"]), false);
}

#[test]
fn test_validation_invalid_at_symbol() {
    assert_eq!(passes(vec!["example.com/my@annotation"]), false);
}

#[test]
fn test_validation_invalid_uppercase_prefix() {
    assert_eq!(passes(vec!["Example.com/my-annotation"]), false);
}

#[test]
fn test_validation_invalid_double_dot_prefix() {
    assert_eq!(passes(vec!["example..com/my-annotation"]), false);
}

#[test]
fn single_character_key_is_valid() {
    assert_eq!(check_annotation_name("a"), Some(true));
    assert_eq!(check_annotation_name("Z"), Some(true));
    assert_eq!(check_annotation_name("7"), Some(true));
}

#[test]
fn empty_name_is_invalid() {
    assert_eq!(check_annotation_name(""), Some(false));
}

#[test]
fn key_may_hold_uppercase_but_prefix_may_not() {
    assert_eq!(check_annotation_name("example.com/My-Annotation"), Some(true));
    assert_eq!(check_annotation_name("example.Com/my-annotation"), Some(false));
}

#[test]
fn prefix_labels_may_hold_inner_hyphens_only() {
    assert_eq!(check_annotation_name("my-site.example-1.com/key"), Some(true));
    assert_eq!(check_annotation_name("-site.com/key"), Some(false));
    assert_eq!(check_annotation_name("site-.com/key"), Some(false));
    assert_eq!(check_annotation_name("site.com./key"), Some(false));
    assert_eq!(check_annotation_name("si_te.com/key"), Some(false));
}

#[test]
fn only_one_slash_is_allowed() {
    assert_eq!(check_annotation_name("a/b/c"), Some(false));
    assert_eq!(check_annotation_name("a//b"), Some(false));
}

#[test]
fn key_must_start_and_end_with_an_alphanumeric() {
    assert_eq!(check_annotation_name("_key"), Some(false));
    assert_eq!(check_annotation_name("key_"), Some(false));
    assert_eq!(check_annotation_name(".key"), Some(false));
    assert_eq!(check_annotation_name("key."), Some(false));
    assert_eq!(check_annotation_name("k-_.y"), Some(true));
}

#[test]
fn the_rule_is_anchored_at_both_ends() {
    assert_eq!(check_annotation_name(" key"), Some(false));
    assert_eq!(check_annotation_name("key "), Some(false));
    assert_eq!(check_annotation_name("key\n"), Some(false));
    assert_eq!(check_annotation_name("!key"), Some(false));
}

#[test]
fn lengths_are_not_limited() {
    let long_key = "k".repeat(100);
    assert_eq!(check_annotation_name(&long_key), Some(true));
    let long_label = format!("{}.com/key", "a".repeat(300));
    assert_eq!(check_annotation_name(&long_label), Some(true));
}

#[test]
fn non_ascii_letters_are_invalid() {
    assert_eq!(check_annotation_name("cl\u{e9}"), Some(false));
}

#[test]
fn direct_check_agrees_with_guarded_check() {
    assert_eq!(is_valid_annotation_name("example.com/my-annotation"), true);
    assert_eq!(is_valid_annotation_name("example.com/"), false);
    assert_eq!(is_valid_annotation_name("my-annotation"), true);
    assert_eq!(is_valid_annotation_name("-my-annotation"), false);
}
