use pingo_share::number::parse_integer;
use pingo_share::settings::{
    action_known, expiration_policy, parse_blur, parse_boolean, parse_expiration_action,
    parse_size, validity_known, ExpirationAction, SaveMode, Settings, SettingsForm,
};

fn form(fields: &[(&str, &str)]) -> SettingsForm {
    let mut f = SettingsForm::new();
    for (name, value) in fields {
        f.set(name, value.to_string());
    }
    f
}

#[test]
fn default_settings() {
    let s = Settings::default();
    assert_eq!(s.id, 0);
    assert_eq!(s.theme, "light");
    assert_eq!(s.logo_path, None);
    assert_eq!(s.background_path, None);
    assert_eq!(s.navbar_title, "PinGO");
    assert_eq!(s.max_upload_size, 104857600);
    assert_eq!(s.blur_intensity, 0);
    assert_eq!(s.max_validity, "7days");
    assert!(s.allow_registration);
    assert_eq!(s.expiration_action, "unavailable");
}

#[test]
fn empty_form_changes_nothing() {
    let mut s = Settings::default();
    s.apply_form(&SettingsForm::new());
    assert_eq!(s, Settings::default());
}

#[test]
fn form_sets_every_field() {
    let mut s = Settings::default();
    s.id = 3;
    s.logo_path = Some("/logos/x.png".to_string());
    s.apply_form(&form(&[
        ("theme", "dark"),
        ("navbarTitle", "Files"),
        ("maxValidity", "1year"),
        ("maxUploadSize", "5000"),
        ("blurIntensity", "24"),
        ("allowRegistration", "false"),
        ("expirationAction", "delete"),
    ]));
    assert_eq!(
        s,
        Settings {
            id: 3,
            theme: "dark".to_string(),
            logo_path: Some("/logos/x.png".to_string()),
            background_path: None,
            navbar_title: "Files".to_string(),
            max_upload_size: 5000,
            blur_intensity: 24,
            max_validity: "1year".to_string(),
            allow_registration: false,
            expiration_action: "delete".to_string(),
        }
    );
}

#[test]
fn unacceptable_fields_keep_the_previous_value() {
    let mut s = Settings::default();
    s.apply_form(&form(&[
        ("theme", ""),
        ("navbarTitle", ""),
        ("maxValidity", "2years"),
        ("maxUploadSize", "lots"),
        ("blurIntensity", "25"),
        ("allowRegistration", "yes"),
        ("expirationAction", "purge"),
    ]));
    assert_eq!(s, Settings::default());
}

#[test]
fn one_bad_field_does_not_cost_the_others() {
    let mut s = Settings::default();
    s.apply_form(&form(&[("blurIntensity", "-1"), ("theme", "dark")]));
    assert_eq!(s.blur_intensity, 0);
    assert_eq!(s.theme, "dark");
}

#[test]
fn later_value_of_a_field_replaces_the_earlier() {
    let f = form(&[("theme", "dark"), ("theme", "blue"), ("unknown", "x")]);
    assert_eq!(f.theme, Some("blue".to_string()));
    assert_eq!(f.navbar_title, None);
    let mut expected = SettingsForm::new();
    expected.theme = Some("blue".to_string());
    assert_eq!(f, expected);
}

#[test]
fn form_fields_are_known_by_their_names() {
    let f = form(&[
        ("navbarTitle", "a"),
        ("maxValidity", "b"),
        ("maxUploadSize", "c"),
        ("blurIntensity", "d"),
        ("allowRegistration", "e"),
        ("expirationAction", "f"),
    ]);
    assert_eq!(f.theme, None);
    assert_eq!(f.navbar_title, Some("a".to_string()));
    assert_eq!(f.max_validity, Some("b".to_string()));
    assert_eq!(f.max_upload_size, Some("c".to_string()));
    assert_eq!(f.blur_intensity, Some("d".to_string()));
    assert_eq!(f.allow_registration, Some("e".to_string()));
    assert_eq!(f.expiration_action, Some("f".to_string()));
}

#[test]
fn validity_periods() {
    for v in ["7days", "1month", "6months", "1year", "never"] {
        assert!(validity_known(v));
    }
    for v in ["", "7 days", "7DAYS", "2years", "forever"] {
        assert!(!validity_known(v));
    }
}

#[test]
fn action_names() {
    assert!(action_known("delete"));
    assert!(action_known("unavailable"));
    assert!(!action_known("Delete"));
    assert!(!action_known(""));
}

#[test]
fn unrecognized_action_falls_back_to_unavailable() {
    assert_eq!(parse_expiration_action("delete"), ExpirationAction::Delete);
    assert_eq!(parse_expiration_action("unavailable"), ExpirationAction::Unavailable);
    assert_eq!(parse_expiration_action("DELETE"), ExpirationAction::Unavailable);
    assert_eq!(parse_expiration_action(""), ExpirationAction::Unavailable);
}

#[test]
fn policy_without_record_is_unavailable() {
    assert_eq!(expiration_policy(None), ExpirationAction::Unavailable);
    let mut s = Settings::default();
    assert_eq!(expiration_policy(Some(&s)), ExpirationAction::Unavailable);
    s.expiration_action = "delete".to_string();
    assert_eq!(expiration_policy(Some(&s)), ExpirationAction::Delete);
}

#[test]
fn booleans_are_spelled_exactly() {
    assert_eq!(parse_boolean("true"), Some(true));
    assert_eq!(parse_boolean("false"), Some(false));
    assert_eq!(parse_boolean("True"), None);
    assert_eq!(parse_boolean("1"), None);
    assert_eq!(parse_boolean(""), None);
}

#[test]
fn sizes_are_decimal_and_not_negative() {
    assert_eq!(parse_size("0"), Some(0));
    assert_eq!(parse_size("104857600"), Some(104857600));
    assert_eq!(parse_size("+12"), Some(12));
    assert_eq!(parse_size("9223372036854775807"), Some(i64::MAX));
    assert_eq!(parse_size("9223372036854775808"), None);
    assert_eq!(parse_size("-1"), None);
    assert_eq!(parse_size("10MB"), None);
    assert_eq!(parse_size(""), None);
}

#[test]
fn blur_is_from_0_to_24() {
    assert_eq!(parse_blur("0"), Some(0));
    assert_eq!(parse_blur("24"), Some(24));
    assert_eq!(parse_blur("007"), Some(7));
    assert_eq!(parse_blur("-0"), Some(0));
    assert_eq!(parse_blur("25"), None);
    assert_eq!(parse_blur("-1"), None);
    assert_eq!(parse_blur("1.5"), None);
    assert_eq!(parse_blur(" 3"), None);
}

#[test]
fn integers_in_bounds() {
    assert_eq!(parse_integer("42", -100, 100), Some(42));
    assert_eq!(parse_integer("-42", -100, 100), Some(-42));
    assert_eq!(parse_integer("+42", -100, 100), Some(42));
    assert_eq!(parse_integer("100", -100, 100), Some(100));
    assert_eq!(parse_integer("-100", -100, 100), Some(-100));
    assert_eq!(parse_integer("101", -100, 100), None);
    assert_eq!(parse_integer("-101", -100, 100), None);
    assert_eq!(parse_integer("-9223372036854775808", i64::MIN, i64::MAX), Some(i64::MIN));
    assert_eq!(parse_integer("9223372036854775807", i64::MIN, i64::MAX), Some(i64::MAX));
    assert_eq!(parse_integer("-9223372036854775809", i64::MIN, i64::MAX), None);
    assert_eq!(parse_integer("99999999999999999999999999999999999999999999", i64::MIN, i64::MAX), None);
    assert_eq!(parse_integer("0000000000000000000000000000000000000000000007", 0, 10), Some(7));
}

#[test]
fn text_that_writes_no_integer() {
    for s in ["", "+", "-", "+-1", "--1", "1-", "12a", "a12", "1 2", "١٢", "0x10", "1e3"] {
        assert_eq!(parse_integer(s, i64::MIN, i64::MAX), None);
    }
}

#[test]
fn record_without_identifier_is_inserted() {
    let mut s = Settings::default();
    assert_eq!(s.save_mode(), SaveMode::Insert);
    s.id = 5;
    assert_eq!(s.save_mode(), SaveMode::Update);
}
