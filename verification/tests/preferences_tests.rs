use ever_living::preferences::{
    create_dir_failed, default_locale, default_port, default_shortcut, default_true,
    loaded_or_default, prefs_dir, prefs_file, read_failed_log, serialize_failed, write_failed,
    Preferences,
};

#[test]
fn defaults_match_the_documented_configuration() {
    let p = Preferences::default();
    assert_eq!(p.port, 7070);
    assert!(!p.autostart);
    assert_eq!(p.shortcut, "CmdOrCtrl+Shift+O");
    assert!(p.notifications_enabled);
    assert_eq!(p.locale, "zh-CN");
}

#[test]
fn default_field_values() {
    assert_eq!(default_port(), 7070);
    assert_eq!(default_shortcut(), "CmdOrCtrl+Shift+O");
    assert!(default_true());
    assert_eq!(default_locale(), "zh-CN");
}

#[test]
fn failed_load_gives_defaults() {
    assert_eq!(loaded_or_default(None), Preferences::default());
    let stored = Preferences {
        port: 8080,
        autostart: true,
        shortcut: "Alt+E".to_string(),
        notifications_enabled: false,
        locale: "en".to_string(),
    };
    assert_eq!(loaded_or_default(Some(stored.clone())), stored);
}

#[test]
fn preferences_live_in_application_support() {
    let dir = prefs_dir("/Users/ada");
    assert_eq!(dir, "/Users/ada/Library/Application Support/com.weifengchen.ever-living");
    assert_eq!(
        prefs_file(&dir),
        "/Users/ada/Library/Application Support/com.weifengchen.ever-living/preferences.json"
    );
    assert_eq!(prefs_dir(""), "Library/Application Support/com.weifengchen.ever-living");
    assert_eq!(prefs_dir("/Users/ada/"), "/Users/ada/Library/Application Support/com.weifengchen.ever-living");
}

#[test]
fn preference_messages() {
    assert_eq!(create_dir_failed("denied"), "创建配置目录失败: denied");
    assert_eq!(read_failed_log("gone"), "[Ever-Living] 读取配置失败: gone");
    assert_eq!(serialize_failed("bad"), "序列化失败: bad");
    assert_eq!(write_failed("full"), "写入配置失败: full");
}
