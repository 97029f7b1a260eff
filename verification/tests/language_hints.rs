use dictyped::paraformer_config::parse_language_hints_csv_lenient;
use dictyped::paraformer_config::LanguageHint;
use dictyped::paraformer_config::ParaformerV2Config;

#[test]
fn rejects_locale_style_hints() {
    let hints = parse_language_hints_csv_lenient("en-US, zh-CN , ,ja-JP");
    assert!(hints.is_empty());
}

#[test]
fn parses_valid_language_hints() {
    let hints = parse_language_hints_csv_lenient("en, zh, ja");
    assert_eq!(hints.len(), 3);
}

#[test]
fn reports_invalid_language_hints() {
    let invalid = ParaformerV2Config::parse_language_hints_csv("en, xx, zh-CN, foo").unwrap_err();
    assert_eq!(
        invalid,
        vec!["xx".to_string(), "zh-CN".to_string(), "foo".to_string()]
    );
}

#[test]
fn rejects_duplicate_language_hints() {
    let invalid = ParaformerV2Config::parse_language_hints_csv("ru,   ru").unwrap_err();
    assert_eq!(invalid, vec!["ru".to_string()]);
}

#[test]
fn strict_parse_accepts_clean_lists() {
    let hints = ParaformerV2Config::parse_language_hints_csv("en, zh, ja").unwrap();
    assert_eq!(
        hints,
        vec![LanguageHint::En, LanguageHint::Zh, LanguageHint::Ja]
    );
}

#[test]
fn strict_parse_normalizes_case_and_underscores() {
    let hints = ParaformerV2Config::parse_language_hints_csv(" EN , Zh ").unwrap();
    assert_eq!(hints, vec![LanguageHint::En, LanguageHint::Zh]);
}

#[test]
fn strict_parse_of_empty_text_is_empty() {
    let hints = ParaformerV2Config::parse_language_hints_csv("").unwrap();
    assert!(hints.is_empty());
    let hints = ParaformerV2Config::parse_language_hints_csv(" , ,").unwrap();
    assert!(hints.is_empty());
}

#[test]
fn lenient_parse_keeps_duplicates() {
    let hints = parse_language_hints_csv_lenient("ru, ru, xx");
    assert_eq!(hints, vec![LanguageHint::Ru, LanguageHint::Ru]);
}

#[test]
fn language_hints_csv_joins_codes() {
    let config = ParaformerV2Config::from_parts(
        String::from("key"),
        vec![LanguageHint::En, LanguageHint::Yue, LanguageHint::Zh],
    );
    assert_eq!(config.language_hints_csv(), "en, yue, zh");
    let empty = ParaformerV2Config::from_parts(String::from("key"), Vec::new());
    assert_eq!(empty.language_hints_csv(), "");
}

#[test]
fn from_ui_drops_what_it_cannot_parse() {
    let config = ParaformerV2Config::from_ui(String::from("key"), "EN, bogus, _ja_");
    assert_eq!(config.dashscope_api_key, "key");
    assert_eq!(config.language_hints, vec![LanguageHint::En]);
}

#[test]
fn hint_codes_round_trip() {
    let codes = ["zh", "en", "ja", "yue", "ko", "de", "fr", "ru"];
    for code in codes {
        let hint = LanguageHint::from_str(code).unwrap();
        assert_eq!(hint.code(), code);
    }
    assert!(LanguageHint::from_str("en-US").is_err());
}
