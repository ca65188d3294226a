use open_music::config::{app_dir_under_platform, Config, ConfigError, ConfigKey};

fn cfg() -> Config {
    Config::with_data_dir("/data/open_music".to_string())
}

#[test]
fn defaults() {
    let c = cfg();
    assert_eq!(c.get("general.data_dir").as_deref(), Some("/data/open_music"));
    assert_eq!(c.get("general.auto_save").as_deref(), Some("true"));
    assert_eq!(c.get("general.auto_save_interval_secs").as_deref(), Some("300"));
    assert_eq!(c.get("general.language").as_deref(), Some("zh-TW"));
    assert_eq!(c.get("audio.output_device"), None);
    assert_eq!(c.get("playback.repeat_mode").as_deref(), Some("off"));
    assert_eq!(c.get("search.max_results").as_deref(), Some("50"));
    assert_eq!(c.get("display.now_playing_format").as_deref(), Some("{title} — {artist} [{duration}]"));
    assert_eq!(c.get("history.max_entries").as_deref(), Some("100"));
    assert_eq!(c.get("ui.font_size").as_deref(), Some("14"));
    assert_eq!(c.get("library.watch_dirs").as_deref(), Some(""));
    let d = Config::default();
    assert!(d.general.data_dir.ends_with("open_music"));
}

#[test]
fn set_then_get() {
    let mut c = cfg();
    assert!(c.set("ui.theme", "dark").is_ok());
    assert_eq!(c.get("ui.theme").as_deref(), Some("dark"));
    assert!(c.set("playback.shuffle_on_start", "true").is_ok());
    assert_eq!(c.get("playback.shuffle_on_start").as_deref(), Some("true"));
    assert!(c.set("queue.max_size", "+25").is_ok());
    assert_eq!(c.get("queue.max_size").as_deref(), Some("25"));
    assert!(c.set("ui.font_size", "70000").is_ok());
    assert_eq!(c.ui.font_size, 70000u64 as u16);
    assert_eq!(c.get("ui.font_size").as_deref(), Some("4464"));
    assert!(c.set("audio.output_device", "hw:1").is_ok());
    assert_eq!(c.get("audio.output_device").as_deref(), Some("hw:1"));
    assert!(c.set("audio.output_device", "NULL").is_ok());
    assert_eq!(c.get("audio.output_device"), None);
    assert!(c.set("library.watch_dirs", " /a , /b,").is_ok());
    assert_eq!(c.library.watch_dirs, vec!["/a", "/b", ""]);
    assert_eq!(c.get("library.watch_dirs").as_deref(), Some("/a, /b, "));
    assert!(c.set("keybinds.play", "space").is_ok());
    assert_eq!(c.get("keybinds.play").as_deref(), Some("space"));
    assert!(c.set("keybinds.play", "p").is_ok());
    assert_eq!(c.get("keybinds.play").as_deref(), Some("p"));
    assert_eq!(c.keybinds.len(), 1);
    assert_eq!(c.get("keybinds.stop"), None);
}

#[test]
fn set_errors_change_nothing() {
    let mut c = cfg();
    match c.set("general.auto_save", "yes") {
        Err(ConfigError::InvalidType { key, expected }) => {
            assert_eq!(key, "general.auto_save");
            assert_eq!(expected, "bool");
        }
        other => panic!("unexpected {:?}", other),
    }
    assert!(c.general.auto_save);
    match c.set("history.max_entries", "-3") {
        Err(ConfigError::InvalidType { expected, .. }) => assert_eq!(expected, "u64"),
        other => panic!("unexpected {:?}", other),
    }
    assert!(matches!(c.set("ui.colour", "x"), Err(ConfigError::UnknownKey(k)) if k == "ui.colour"));
    assert!(matches!(c.set("ui.theme.x", "x"), Err(ConfigError::UnknownKey(_))));
    assert!(matches!(c.set("audio.default_volume", "0.5"), Err(ConfigError::FloatSetting { .. })));
    assert_eq!(c.get("nope"), None);
    assert_eq!(c.get("audio.default_volume"), None);
}

#[test]
fn key_paths() {
    assert!(matches!(Config::key_of("ui.theme"), ConfigKey::UiTheme));
    assert!(matches!(Config::key_of("keybinds.next"), ConfigKey::Keybind(a) if a == "next"));
    assert!(matches!(Config::key_of("ui"), ConfigKey::Unknown));
    assert!(matches!(Config::key_of("audio.default_volume"), ConfigKey::AudioDefaultVolume));
}

#[test]
fn locations() {
    assert_eq!(app_dir_under_platform(Some("/home/u/.local/share".to_string())), "/home/u/.local/share/open_music");
    assert_eq!(app_dir_under_platform(None), "./open_music");
    assert!(Config::config_path().ends_with("open_music/config.toml"));
}

#[test]
fn integer_settings_read_back_their_decimal() {
    let mut c = cfg();
    assert!(c.set("queue.max_size", "200").is_ok());
    assert_eq!(c.get("queue.max_size").as_deref(), Some("200"));
    assert!(c.set("ui.font_size", "0").is_ok());
    assert_eq!(c.get("ui.font_size").as_deref(), Some("0"));
    assert!(c.set("search.max_results", "+7").is_ok());
    assert_eq!(c.get("search.max_results").as_deref(), Some("7"));
    assert!(c.set("keybinds.play", "p").is_ok());
    assert!(c.set("keybinds.play", "space").is_ok());
    assert_eq!(c.get("keybinds.play").as_deref(), Some("space"));
}
