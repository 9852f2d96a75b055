use voxie::errors::AppError;
use voxie::session::InnerState;
use voxie::translate::{
    interpret_translation_response, mm_langpair, selection_update, to_mm_lang, translate_local,
    FREE_DAILY_LIMIT, KEYED_DAILY_LIMIT,
};

#[test]
fn language_codes_map_to_remote_codes() {
    assert_eq!(to_mm_lang("zh-hans"), "zh-CN");
    assert_eq!(to_mm_lang("zh-hant"), "zh-TW");
    assert_eq!(to_mm_lang("en"), "en-GB");
    assert_eq!(to_mm_lang("fr"), "fr");
    assert_eq!(mm_langpair("zh-hans", "en"), "zh-CN|en-GB");
    assert_eq!(mm_langpair("en", "zh-hant"), "en-GB|zh-TW");
}

#[test]
fn same_language_returns_text_unchanged() {
    assert_eq!(translate_local("bonjour", "fr", "fr").as_deref(), Some("bonjour"));
    assert_eq!(translate_local("   ", "en", "fr").as_deref(), Some("   "));
    assert_eq!(translate_local("", "en", "fr").as_deref(), Some(""));
}

#[test]
fn simplified_to_traditional_converts_locally() {
    // the converter must actually change the script
    let r = translate_local("汉字简体转换", "zh-hans", "zh-hant").unwrap();
    assert_eq!(r, "漢字簡體轉換");
}

#[test]
fn traditional_to_simplified_converts_locally() {
    let r = translate_local("漢字簡體轉換", "zh-hant", "zh-hans").unwrap();
    assert_eq!(r, "汉字简体转换");
}

#[test]
fn other_directions_need_the_remote_collaborator() {
    assert!(translate_local("hello", "en", "zh-hans").is_none());
    assert!(translate_local("hello", "en", "fr").is_none());
}

#[test]
fn remote_answers_are_interpreted() {
    assert_eq!(
        interpret_translation_response(false, "bonjour"),
        Ok("bonjour".to_string())
    );
    assert_eq!(
        interpret_translation_response(true, "bonjour"),
        Err(AppError::TranslationQuotaExceeded)
    );
    assert_eq!(
        interpret_translation_response(false, "MYMEMORY WARNING: YOU USED ALL AVAILABLE..."),
        Err(AppError::TranslationQuotaExceeded)
    );
    assert_eq!(
        interpret_translation_response(false, ""),
        Err(AppError::TranslationFailed)
    );
}

#[test]
fn selection_capture_filters_noise() {
    // a fresh, long-enough selection is surfaced, trimmed
    assert_eq!(selection_update("", "  new words "), Some("new words".to_string()));
    // repeats are not surfaced again
    assert_eq!(selection_update("new words", " new words "), None);
    // fewer than two characters is noise
    assert_eq!(selection_update("", " a "), None);
    assert_eq!(selection_update("", "   "), None);
    // two characters is enough
    assert_eq!(selection_update("", "ab"), Some("ab".to_string()));
}

#[test]
fn day_roll_resets_count() {
    let mut s = InnerState::new();
    s.note_translation("2024-02-26");
    s.note_translation("2024-02-26");
    let u = s.translation_usage("2024-02-26", None);
    assert_eq!(u.used_today, 2);
    assert_eq!(u.limit_today, FREE_DAILY_LIMIT);
    assert!(!u.has_key);

    // the next day starts at zero
    let u = s.translation_usage("2024-02-27", None);
    assert_eq!(u.used_today, 0);
}

#[test]
fn keyed_usage_prefers_the_reported_figure() {
    let mut s = InnerState::new();
    s.settings.my_memory_key = "key-for-tests".to_string();
    s.note_translation("2024-02-26");
    let u = s.translation_usage("2024-02-26", Some(42));
    assert_eq!(u.used_today, 42);
    assert_eq!(u.limit_today, KEYED_DAILY_LIMIT);
    assert!(u.has_key);

    // without an answer the local count stands in
    let u = s.translation_usage("2024-02-26", None);
    assert_eq!(u.used_today, 1);
    assert_eq!(u.limit_today, KEYED_DAILY_LIMIT);
}
