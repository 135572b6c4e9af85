use obs_relay::config::{Config, ConfigKey};
use obs_relay::error::CoreError;
use obs_relay::location::{locale_from_tag, resolve, Locale, ServerAlias};

fn full_config() -> Config {
    Config {
        singil_literal_ko: Some("신길".to_string()),
        singil_literal_en: Some("Singil".to_string()),
        cwmc_literal_ko: Some("숭문".to_string()),
        cwmc_literal_en: Some("Cwmc".to_string()),
        singil_host: Some("singil.internal".to_string()),
        cwmc_host: Some("cwmc.internal".to_string()),
        port: Some("4455".to_string()),
    }
}

#[test]
fn locale_from_tag_recognizes_korean() {
    assert_eq!(locale_from_tag(Some("ko")), Locale::Korean);
}

#[test]
fn locale_from_tag_defaults_everything_else() {
    assert_eq!(locale_from_tag(None), Locale::English);
    assert_eq!(locale_from_tag(Some("en")), Locale::English);
    assert_eq!(locale_from_tag(Some("kor")), Locale::English);
    assert_eq!(locale_from_tag(Some("")), Locale::English);
}

#[test]
fn resolve_no_location_defaults_to_singil() {
    let config = full_config();
    for locale in [Locale::English, Locale::Korean] {
        let r = resolve(&config, locale, &None);
        assert!(matches!(r, Ok(ServerAlias::Singil)));
    }
}

#[test]
fn resolve_exact_literal_selects_alias() {
    let config = full_config();
    let cases = [
        (Locale::English, "Singil", ServerAlias::Singil),
        (Locale::English, "Cwmc", ServerAlias::Cwmc),
        (Locale::Korean, "신길", ServerAlias::Singil),
        (Locale::Korean, "숭문", ServerAlias::Cwmc),
    ];
    for (locale, raw, expected) in cases {
        let r = resolve(&config, locale, &Some(raw.to_string()));
        assert_eq!(r.unwrap(), expected);
    }
}

#[test]
fn resolve_is_exact_no_folding_or_trimming() {
    let config = full_config();
    for raw in ["singil", "Singil ", " Cwmc", "SINGIL"] {
        let r = resolve(&config, Locale::English, &Some(raw.to_string()));
        assert!(matches!(r, Err(CoreError::InvalidLocation(_))));
    }
}

#[test]
fn resolve_unmatched_input_is_invalid_location() {
    let config = full_config();
    for locale in [Locale::English, Locale::Korean] {
        let r = resolve(&config, locale, &Some("unknown-place".to_string()));
        match r {
            Err(CoreError::InvalidLocation(raw)) => assert_eq!(raw, "unknown-place"),
            other => panic!("expected InvalidLocation, got {:?}", other),
        }
    }
}

#[test]
fn resolve_wrong_locale_literal_is_rejected() {
    // The Korean literal does not match under the default locale.
    let config = full_config();
    let r = resolve(&config, Locale::English, &Some("신길".to_string()));
    assert!(matches!(r, Err(CoreError::InvalidLocation(_))));
}

#[test]
fn resolve_missing_literal_names_the_key() {
    let mut config = full_config();
    config.singil_literal_en = None;
    let r = resolve(&config, Locale::English, &None);
    assert!(matches!(r, Err(CoreError::ConfigMissing(ConfigKey::SingilLiteralEn))));

    let mut config = full_config();
    config.cwmc_literal_ko = None;
    // The secondary literal is read before matching, so even a request
    // with no location fails on it.
    let r = resolve(&config, Locale::Korean, &None);
    assert!(matches!(r, Err(CoreError::ConfigMissing(ConfigKey::CwmcLiteralKo))));
}
