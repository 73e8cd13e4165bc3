use ever_living::preferences::Preferences;
use ever_living::shell::{
    autostart_change, global_shortcut, shortcut_toggles, shows_ready_notice, AutostartChange,
    KeyState,
};
use ever_living::shell::{
    click_toggles, ever_living_lang, init_script, lang_switch_script, locale_lang,
    main_window_url, menu_command, ready_notice, service_url, status_of, toggle_window, Button,
    ButtonState, MenuCommand, ServiceRecord, WindowChange,
};

fn prefs_with_locale(locale: &str) -> Preferences {
    let mut p = Preferences::default();
    p.locale = locale.to_string();
    p
}

#[test]
fn language_follows_locale_prefix() {
    assert_eq!(ever_living_lang(&prefs_with_locale("zh-CN")), "zh");
    assert_eq!(ever_living_lang(&prefs_with_locale("zh")), "zh");
    assert_eq!(ever_living_lang(&prefs_with_locale("zh-TW")), "zh");
    assert_eq!(ever_living_lang(&prefs_with_locale("en")), "en");
    assert_eq!(ever_living_lang(&prefs_with_locale("ZH-CN")), "en");
    assert_eq!(ever_living_lang(&prefs_with_locale("")), "en");
    assert_eq!(locale_lang("z"), "en");
    assert_eq!(locale_lang("zhuang"), "zh");
}

#[test]
fn language_switch_script() {
    assert_eq!(
        lang_switch_script("zh"),
        "localStorage.setItem('clacky-lang','zh');location.reload();"
    );
}

#[test]
fn main_window_init_script() {
    let l = "en";
    let expected = format!(
        r#"(function(){{localStorage.setItem('clacky-lang','{l}');Object.defineProperty(navigator,'language',{{value:'{l}-CN',configurable:true}});Object.defineProperty(navigator,'languages',{{value:['{l}-CN','{l}'],configurable:true}});window.addEventListener('load',function(){{if(typeof I18n!=='undefined'&&I18n.lang()!=='{l}'){{I18n.setLang('{l}');}}}})}})();"#,
        l = l
    );
    assert_eq!(init_script(l), expected);
}

#[test]
fn service_address() {
    assert_eq!(service_url(7070), "http://127.0.0.1:7070");
    assert_eq!(service_url(0), "http://127.0.0.1:0");
    let url = main_window_url(7070).unwrap();
    assert_eq!(url.as_str(), "http://127.0.0.1:7070/");
    assert_eq!(url.port(), Some(7070));
    assert_eq!(ready_notice(7070), "服务就绪 -> 端口 7070");
}

#[test]
fn tray_menu_commands() {
    assert_eq!(menu_command("toggle"), MenuCommand::ToggleWindow);
    assert_eq!(menu_command("prefs"), MenuCommand::OpenPreferences);
    assert_eq!(menu_command("quit"), MenuCommand::Quit);
    assert_eq!(menu_command("Quit"), MenuCommand::Ignore);
    assert_eq!(menu_command(""), MenuCommand::Ignore);
}

#[test]
fn tray_click_and_window_toggle() {
    assert!(click_toggles(Button::Left, ButtonState::Up));
    assert!(!click_toggles(Button::Left, ButtonState::Down));
    assert!(!click_toggles(Button::Right, ButtonState::Up));
    assert!(!click_toggles(Button::Middle, ButtonState::Up));
    assert_eq!(toggle_window(Some(true)), WindowChange::Hide);
    assert_eq!(toggle_window(Some(false)), WindowChange::ShowAndFocus);
    assert_eq!(toggle_window(None), WindowChange::ShowAndFocus);
}

#[test]
fn status_reads_running_only_with_a_live_process() {
    let mut record = ServiceRecord::new();
    assert_eq!(record.pid, None);
    assert_eq!(record.port, 7070);
    let s = status_of(record, true);
    assert!(!s.running);
    assert_eq!(s.pid, None);
    record.record_start(4321, 7070);
    let s = status_of(record, true);
    assert!(s.running);
    assert_eq!(s.pid, Some(4321));
    assert_eq!(s.port, 7070);
    assert!(!status_of(record, false).running);
}

#[test]
fn ready_notice_follows_notification_preference() {
    let mut p = Preferences::default();
    assert!(shows_ready_notice(&p));
    p.notifications_enabled = false;
    assert!(!shows_ready_notice(&p));
}

#[test]
fn shortcut_and_autostart_follow_preferences() {
    let mut p = Preferences::default();
    assert_eq!(global_shortcut(&p), "CmdOrCtrl+Shift+O");
    p.shortcut = "Alt+Space".to_string();
    assert_eq!(global_shortcut(&p), "Alt+Space");
    assert!(shortcut_toggles(KeyState::Pressed));
    assert!(!shortcut_toggles(KeyState::Released));
    assert_eq!(autostart_change(&p, Some(false)), AutostartChange::Keep);
    assert_eq!(autostart_change(&p, Some(true)), AutostartChange::Disable);
    assert_eq!(autostart_change(&p, None), AutostartChange::Disable);
    p.autostart = true;
    assert_eq!(autostart_change(&p, Some(false)), AutostartChange::Enable);
    assert_eq!(autostart_change(&p, Some(true)), AutostartChange::Keep);
    assert_eq!(autostart_change(&p, None), AutostartChange::Enable);
}

#[test]
fn main_window_url_is_the_parsed_service_address() {
    let url = main_window_url(8123).unwrap();
    assert_eq!(url, url::Url::parse(&service_url(8123)).unwrap());
    assert_eq!(url.host_str(), Some("127.0.0.1"));
}
