use botcore::ConfigError;
use botcore::Settings;
use botcore::SettingsProvider;

fn sample_settings(token: &[u8]) -> Settings {
    Settings::new(token.to_vec(), b"!".to_vec(), (127, 0, 0, 1), 8080).unwrap()
}

#[test]
fn settings_new_accepts_complete_config() {
    let s = Settings::new(b"tok".to_vec(), b"!".to_vec(), (0, 0, 0, 0), 80).unwrap();
    assert_eq!(s.token, b"tok".to_vec());
    assert_eq!(s.prefix, b"!".to_vec());
    assert_eq!(s.bind, (0, 0, 0, 0));
    assert_eq!(s.port, 80);
}

#[test]
fn settings_new_rejects_missing_token() {
    let r = Settings::new(Vec::new(), b"!".to_vec(), (127, 0, 0, 1), 8080);
    assert!(matches!(r, Err(ConfigError::MissingToken)));
}

#[test]
fn settings_new_rejects_missing_prefix() {
    let r = Settings::new(b"tok".to_vec(), Vec::new(), (127, 0, 0, 1), 8080);
    assert!(matches!(r, Err(ConfigError::MissingPrefix)));
}

#[test]
fn provider_starts_empty_and_never_defaults() {
    let p = SettingsProvider::new();
    assert_eq!(p.loads(), 0);
    assert!(p.get().is_none());
}

#[test]
fn provider_loads_exactly_once() {
    let mut p = SettingsProvider::new();
    p.get_or_init(sample_settings(b"first"));
    assert_eq!(p.loads(), 1);
    let first = p.get().unwrap().token.clone();

    p.get_or_init(sample_settings(b"second"));
    assert_eq!(p.loads(), 1);
    let second = p.get().unwrap().token.clone();

    assert_eq!(first, b"first".to_vec());
    assert_eq!(first, second);
}

#[test]
fn provider_many_readers_identical_value() {
    let mut p = SettingsProvider::new();
    for _ in 0..5 {
        p.get_or_init(sample_settings(b"tok"));
    }
    assert_eq!(p.loads(), 1);
    for _ in 0..5 {
        let s = p.get().unwrap();
        assert_eq!(s.token, b"tok".to_vec());
        assert_eq!(s.prefix, b"!".to_vec());
        assert_eq!(s.port, 8080);
    }
}
