use voxie::clock::{format_id, make_id};
use voxie::errors::AppError;
use voxie::settings::{
    default_theme, validate_cloud_settings, AppSettings, CloudProvider, TranscriptionMode,
};
use voxie::text::{concat_strings, format_u64, str_eq, str_eq_ignore_ascii_case, trim_str};

#[test]
fn settings_defaults() {
    let s = AppSettings::default();
    assert_eq!(s.mode, TranscriptionMode::Local);
    assert_eq!(s.local_model, "small");
    assert_eq!(s.cloud_provider, CloudProvider::OpenAI);
    assert_eq!(s.cloud_base_url, "https://api.openai.com/v1");
    assert_eq!(s.cloud_api_key, "");
    assert_eq!(s.shortcut_key, "Alt");
    assert_eq!(s.language, "auto");
    assert_eq!(s.window_opacity_permille, 850);
    assert!(s.auto_copy);
    assert_eq!(s.max_history, 100);
    assert_eq!(s.theme, "green");
    assert_eq!(s.my_memory_key, "");
    assert_eq!(default_theme(), "green");
}

#[test]
fn cloud_settings_validation_order() {
    let mut s = AppSettings::default();
    assert_eq!(validate_cloud_settings(&s), Err(AppError::MissingApiKey));
    s.cloud_api_key = "key-for-tests".to_string();
    s.cloud_base_url = String::new();
    assert_eq!(validate_cloud_settings(&s), Err(AppError::MissingBaseUrl));
    s.cloud_base_url = "https://api.openai.com/v1".to_string();
    assert_eq!(validate_cloud_settings(&s), Ok(()));
}

#[test]
fn settings_duplicate_is_exact() {
    let mut s = AppSettings::default();
    s.language = "zh".to_string();
    s.max_history = 7;
    let d = s.duplicate();
    assert_eq!(d.language, "zh");
    assert_eq!(d.max_history, 7);
    assert_eq!(d.theme, "green");
}

#[test]
fn string_equality_helpers() {
    assert!(str_eq("abc", "abc"));
    assert!(!str_eq("abc", "abd"));
    assert!(!str_eq("abc", "abcd"));
    assert!(str_eq("", ""));
    assert!(str_eq_ignore_ascii_case("Auto", "aUTO"));
    assert!(!str_eq_ignore_ascii_case("auto", "aut"));
    assert!(str_eq_ignore_ascii_case("大家好", "大家好"));
}

#[test]
fn trimming() {
    assert_eq!(trim_str("  hello \t\r\n"), "hello");
    assert_eq!(trim_str("hello"), "hello");
    assert_eq!(trim_str("   "), "");
    assert_eq!(trim_str(""), "");
    assert_eq!(trim_str(" a b "), "a b");
}

#[test]
fn concatenation() {
    let parts = vec!["a".to_string(), "".to_string(), "bc".to_string()];
    assert_eq!(concat_strings(&parts), "abc");
}

#[test]
fn decimal_formatting() {
    assert_eq!(format_u64(0), "0");
    assert_eq!(format_u64(9), "9");
    assert_eq!(format_u64(10), "10");
    assert_eq!(format_u64(1700000123), "1700000123");
    assert_eq!(format_u64(u64::MAX), "18446744073709551615");
}

#[test]
fn id_formatting_pads_nanoseconds() {
    assert_eq!(format_id(5, 7), "5000000007");
    assert_eq!(format_id(1700000123, 456), "1700000123000000456");
    assert_eq!(format_id(0, 999999999), "0999999999");
}

#[test]
fn minted_ids_are_digit_strings() {
    let id = make_id();
    assert!(id.len() >= 10);
    assert!(id.chars().all(|c| c.is_ascii_digit()));
    // the seconds part moves forward, so two ids rarely collide; at the
    // least they stay well-formed
    let id2 = make_id();
    assert!(id2.len() >= 10);
}
