//! Decisions of the menu-bar shell: which language the web interface uses,
//! what the tray and its menu do, what the service's status reads, and the
//! address and scripts handed to the main window.
use vstd::prelude::*;
use vstd::string::*;
use crate::preferences::Preferences;
use crate::text::{decimal, decimal_string, starts_with, str_equals, str_starts_with};

verus! {

/// The web interface's language for a locale: "zh" for any locale that
/// starts with "zh", "en" for every other.
pub open spec fn lang_for(locale: Seq<char>) -> Seq<char> {
    if starts_with(locale, "zh"@) {
        "zh"@
    } else {
        "en"@
    }
}

/// The language code for `locale`.
pub fn locale_lang(locale: &str) -> (lang: &'static str)
    ensures
        lang@ == lang_for(locale@),
        lang@ == "zh"@ || lang@ == "en"@,
{
    if str_starts_with(locale, "zh") {
        "zh"
    } else {
        "en"
    }
}

/// The web interface's language for the given preferences.
pub fn ever_living_lang(prefs: &Preferences) -> (lang: &'static str)
    ensures
        lang@ == lang_for(prefs.locale@),
        lang@ == "zh"@ || lang@ == "en"@,
{
    locale_lang(prefs.locale.as_str())
}

pub open spec fn spec_lang_switch_script(l: Seq<char>) -> Seq<char> {
    "localStorage.setItem('clacky-lang','"@ + l + "');location.reload();"@
}

/// The script that switches an open window to `lang` and reloads it.
pub fn lang_switch_script(lang: &str) -> (js: String)
    ensures
        js@ == spec_lang_switch_script(lang@),
        js@ == "localStorage.setItem('clacky-lang','"@ + lang@ + "');location.reload();"@,
{
    let mut js = "localStorage.setItem('clacky-lang','".to_owned();
    js.append(lang);
    js.append("');location.reload();");
    js
}

pub open spec fn spec_init_script(l: Seq<char>) -> Seq<char> {
    "(function(){localStorage.setItem('clacky-lang','"@ + l
        + "');Object.defineProperty(navigator,'language',{value:'"@ + l
        + "-CN',configurable:true});Object.defineProperty(navigator,'languages',{value:['"@ + l
        + "-CN','"@ + l
        + "'],configurable:true});window.addEventListener('load',function(){if(typeof I18n!=='undefined'&&I18n.lang()!=='"@
        + l + "'){I18n.setLang('"@ + l + "');}})})();"@
}

/// The script run in the main window before its page loads: it presents
/// `lang` as the browser's language and makes the page use it.
pub fn init_script(lang: &str) -> (js: String)
    ensures
        js@ == spec_init_script(lang@),
{
    let mut js = "(function(){localStorage.setItem('clacky-lang','".to_owned();
    js.append(lang);
    js.append("');Object.defineProperty(navigator,'language',{value:'");
    js.append(lang);
    js.append("-CN',configurable:true});Object.defineProperty(navigator,'languages',{value:['");
    js.append(lang);
    js.append("-CN','");
    js.append(lang);
    js.append(
        "'],configurable:true});window.addEventListener('load',function(){if(typeof I18n!=='undefined'&&I18n.lang()!=='",
    );
    js.append(lang);
    js.append("'){I18n.setLang('");
    js.append(lang);
    js.append("');}})})();");
    js
}

pub open spec fn spec_service_url(port: u16) -> Seq<char> {
    "http://127.0.0.1:"@ + decimal(port as nat)
}

/// The address of the service on `port`.
pub fn service_url(port: u16) -> (url: String)
    ensures
        url@ == spec_service_url(port),
{
    let mut url = "http://127.0.0.1:".to_owned();
    let digits = decimal_string(port as u64);
    url.append(digits.as_str());
    url
}

#[verifier::external_type_specification]
#[verifier::external_body]
pub struct ExUrl(url::Url);

#[verifier::external_type_specification]
#[verifier::external_body]
pub struct ExUrlParseError(url::ParseError);

/// Whether `url::Url::parse` accepts `text`.
pub uninterp spec fn url_accepts(text: Seq<char>) -> bool;

/// The URL that `url::Url::parse` makes of `text`, when it accepts it.
pub uninterp spec fn url_parsed(text: Seq<char>) -> url::Url;

/// Calls `url::Url::parse`; the contract claims that it succeeds exactly on
/// the texts that `url_accepts` names, and then gives the URL that
/// `url_parsed` names for the text: both depend on the text alone.
#[verifier::external_body]
fn parse_url(text: &str) -> (r: Result<url::Url, url::ParseError>)
    ensures
        r is Ok <==> url_accepts(text@),
        r matches Ok(u) ==> u == url_parsed(text@),
{
    url::Url::parse(text)
}

/// The address that the main window opens, parsed.
pub fn main_window_url(port: u16) -> (r: Result<url::Url, url::ParseError>)
    ensures
        r is Ok <==> url_accepts(spec_service_url(port)),
        r matches Ok(u) ==> u == url_parsed(spec_service_url(port)),
{
    let text = service_url(port);
    parse_url(text.as_str())
}

/// The body of the notification that the service is ready on `port`.
pub fn ready_notice(port: u16) -> (body: String)
    ensures
        body@ == "服务就绪 -> 端口 "@ + decimal(port as nat),
{
    let mut body = "服务就绪 -> 端口 ".to_owned();
    let digits = decimal_string(port as u64);
    body.append(digits.as_str());
    body
}

/// What an item of the tray menu does.
#[derive(Debug, Clone, Copy, PartialEq, Eq, Structural)]
pub enum MenuCommand {
    /// Show the main window, or hide it when it is visible.
    ToggleWindow,
    /// Open the preferences window.
    OpenPreferences,
    /// Stop the service and leave.
    Quit,
    /// Nothing.
    Ignore,
}

/// The command of the menu item with identifier `id`.
pub fn menu_command(id: &str) -> (c: MenuCommand)
    ensures
        c == (if id@ == "toggle"@ {
            MenuCommand::ToggleWindow
        } else if id@ == "prefs"@ {
            MenuCommand::OpenPreferences
        } else if id@ == "quit"@ {
            MenuCommand::Quit
        } else {
            MenuCommand::Ignore
        }),
{
    if str_equals(id, "toggle") {
        MenuCommand::ToggleWindow
    } else if str_equals(id, "prefs") {
        MenuCommand::OpenPreferences
    } else if str_equals(id, "quit") {
        MenuCommand::Quit
    } else {
        MenuCommand::Ignore
    }
}

/// A mouse button.
#[derive(Debug, Clone, Copy, PartialEq, Eq, Structural)]
pub enum Button {
    Left,
    Right,
    Middle,
}

/// Whether a button went down or came up.
#[derive(Debug, Clone, Copy, PartialEq, Eq, Structural)]
pub enum ButtonState {
    Up,
    Down,
}

/// Whether a click on the tray icon toggles the main window: only the left
/// button, when it comes up.
pub fn click_toggles(button: Button, state: ButtonState) -> (t: bool)
    ensures
        t == (button == Button::Left && state == ButtonState::Up),
{
    match (button, state) {
        (Button::Left, ButtonState::Up) => true,
        _ => false,
    }
}

/// What toggling the main window does.
#[derive(Debug, Clone, Copy, PartialEq, Eq, Structural)]
pub enum WindowChange {
    Hide,
    ShowAndFocus,
}

/// Toggling a window whose visibility reads `visible` (`None` when it could
/// not be read, which counts as hidden).
pub fn toggle_window(visible: Option<bool>) -> (c: WindowChange)
    ensures
        c == (if visible == Some(true) {
            WindowChange::Hide
        } else {
            WindowChange::ShowAndFocus
        }),
{
    match visible {
        Some(true) => WindowChange::Hide,
        _ => WindowChange::ShowAndFocus,
    }
}

/// The service as the shell knows it: the process it started, if any, and
/// the port.
#[derive(Debug, Clone, Copy, PartialEq, Eq, Structural)]
pub struct ServiceRecord {
    pub pid: Option<u32>,
    pub port: u16,
}

impl ServiceRecord {
    /// Nothing started yet, on the default port.
    pub fn new() -> (r: ServiceRecord)
        ensures
            r.pid is None,
            r.port == 7070,
    {
        ServiceRecord { pid: None, port: 7070 }
    }

    /// Records a started service.
    pub fn record_start(&mut self, pid: u32, port: u16)
        ensures
            final(self).pid == Some(pid),
            final(self).port == port,
    {
        self.pid = Some(pid);
        self.port = port;
    }
}

/// The status shown to the user.
#[derive(Debug, Clone, Copy, PartialEq, Eq, Structural)]
pub struct Status {
    pub running: bool,
    pub port: u16,
    pub pid: Option<u32>,
}

/// The status of `record`, where `pid_alive` says whether its process (if it
/// has one) is alive; the service runs exactly when there is a process and
/// it is alive.
pub fn status_of(record: ServiceRecord, pid_alive: bool) -> (s: Status)
    ensures
        s.running == (record.pid is Some && pid_alive),
        s.port == record.port,
        s.pid == record.pid,
{
    Status { running: record.pid.is_some() && pid_alive, port: record.port, pid: record.pid }
}

/// Whether the notice that the service is ready is shown: only when
/// notifications are enabled in `prefs`.
pub fn shows_ready_notice(prefs: &Preferences) -> (show: bool)
    ensures
        show == prefs.notifications_enabled,
{
    prefs.notifications_enabled
}

/// The global shortcut to register, as `prefs` sets it.
pub fn global_shortcut(prefs: &Preferences) -> (shortcut: String)
    ensures
        shortcut@ == prefs.shortcut@,
{
    prefs.shortcut.clone()
}

/// Whether a key state of the global shortcut is a press or a release.
#[derive(Debug, Clone, Copy, PartialEq, Eq, Structural)]
pub enum KeyState {
    Pressed,
    Released,
}

/// Whether the global shortcut toggles the main window: on its press only.
pub fn shortcut_toggles(state: KeyState) -> (t: bool)
    ensures
        t == (state == KeyState::Pressed),
{
    match state {
        KeyState::Pressed => true,
        KeyState::Released => false,
    }
}

/// What is done to start-at-login.
#[derive(Debug, Clone, Copy, PartialEq, Eq, Structural)]
pub enum AutostartChange {
    Enable,
    Disable,
    Keep,
}

/// How start-at-login is brought in line with `prefs`, when it currently
/// reads `enabled` (`None` when it could not be read).
pub fn autostart_change(prefs: &Preferences, enabled: Option<bool>) -> (c: AutostartChange)
    ensures
        c == (if enabled == Some(prefs.autostart) {
            AutostartChange::Keep
        } else if prefs.autostart {
            AutostartChange::Enable
        } else {
            AutostartChange::Disable
        }),
{
    match enabled {
        Some(e) if e == prefs.autostart => AutostartChange::Keep,
        _ => if prefs.autostart {
            AutostartChange::Enable
        } else {
            AutostartChange::Disable
        },
    }
}

/// The statement that stores `l` as the web interface's language.
pub open spec fn store_lang(l: Seq<char>) -> Seq<char> {
    "localStorage.setItem('clacky-lang','"@ + l + "')"@
}

/// Both scripts store the language they are made for: the script run before
/// the main window's page loads begins, right inside its function, by
/// storing `l`; the switching script stores `l` and then reloads.
pub proof fn law_scripts_store_language(l: Seq<char>)
    ensures
        exists|rest: Seq<char>| spec_init_script(l) == "(function(){"@ + store_lang(l) + rest,
        spec_lang_switch_script(l) == store_lang(l) + ";location.reload();"@,
{
    reveal_strlit("(function(){localStorage.setItem('clacky-lang','");
    reveal_strlit("(function(){");
    reveal_strlit("localStorage.setItem('clacky-lang','");
    reveal_strlit("')");
    reveal_strlit("');Object.defineProperty(navigator,'language',{value:'");
    reveal_strlit(";Object.defineProperty(navigator,'language',{value:'");
    reveal_strlit("');location.reload();");
    reveal_strlit(";location.reload();");
    let tail = spec_init_script(l).skip(
        ("(function(){localStorage.setItem('clacky-lang','"@ + l + "')"@).len() as int,
    );
    assert("(function(){localStorage.setItem('clacky-lang','"@ =~= "(function(){"@
        + "localStorage.setItem('clacky-lang','"@);
    assert("');Object.defineProperty(navigator,'language',{value:'"@ =~= "')"@
        + ";Object.defineProperty(navigator,'language',{value:'"@);
    assert(spec_init_script(l) =~= "(function(){"@ + store_lang(l) + tail);
    assert("');location.reload();"@ =~= "')"@ + ";location.reload();"@);
    assert(spec_lang_switch_script(l) =~= store_lang(l) + ";location.reload();"@);
}

/// The script run before the main window's page loads presents the language
/// it is made for everywhere the page looks for one: the stored language is
/// `l`, the browser's language is `l` in China, its list of languages is
/// that and `l`, and a page whose own language is not `l` is switched to
/// `l`.
pub proof fn law_init_script_uses_language(l: Seq<char>)
    ensures
        exists|a: Seq<char>, b: Seq<char>|
            spec_init_script(l) == a + ("'clacky-lang','"@ + l + "');"@) + b,
        exists|a: Seq<char>, b: Seq<char>|
            spec_init_script(l) == a + ("navigator,'language',{value:'"@ + l + "-CN'"@) + b,
        exists|a: Seq<char>, b: Seq<char>|
            spec_init_script(l) == a + ("navigator,'languages',{value:['"@ + l + "-CN','"@ + l + "']"@) + b,
        exists|a: Seq<char>, b: Seq<char>|
            spec_init_script(l) == a + ("I18n.lang()!=='"@ + l + "'){I18n.setLang('"@ + l + "');"@) + b,
{
    reveal_strlit("(function(){localStorage.setItem('clacky-lang','");
    reveal_strlit("');Object.defineProperty(navigator,'language',{value:'");
    reveal_strlit("-CN',configurable:true});Object.defineProperty(navigator,'languages',{value:['");
    reveal_strlit("-CN','");
    reveal_strlit("'],configurable:true});window.addEventListener('load',function(){if(typeof I18n!=='undefined'&&I18n.lang()!=='");
    reveal_strlit("'){I18n.setLang('");
    reveal_strlit("');}})})();");
    reveal_strlit("(function(){localStorage.setItem(");
    reveal_strlit("'clacky-lang','");
    reveal_strlit("Object.defineProperty(navigator,'language',{value:'");
    reveal_strlit("Object.defineProperty(");
    reveal_strlit("navigator,'language',{value:'");
    reveal_strlit(",configurable:true});Object.defineProperty(navigator,'languages',{value:['");
    reveal_strlit(",configurable:true});Object.defineProperty(");
    reveal_strlit("navigator,'languages',{value:['");
    reveal_strlit(",configurable:true});window.addEventListener('load',function(){if(typeof I18n!=='undefined'&&I18n.lang()!=='");
    reveal_strlit(",configurable:true});window.addEventListener('load',function(){if(typeof I18n!=='undefined'&&");
    reveal_strlit("I18n.lang()!=='");
    reveal_strlit("');");
    reveal_strlit("-CN'");
    reveal_strlit("']");
    reveal_strlit("}})})();");
    assert("(function(){localStorage.setItem('clacky-lang','"@ =~= "(function(){localStorage.setItem("@ + "'clacky-lang','"@);
    assert("');Object.defineProperty(navigator,'language',{value:'"@ =~= "');"@ + "Object.defineProperty("@ + "navigator,'language',{value:'"@);
    assert("-CN',configurable:true});Object.defineProperty(navigator,'languages',{value:['"@ =~= "-CN'"@ + ",configurable:true});Object.defineProperty("@ + "navigator,'languages',{value:['"@);
    assert("'],configurable:true});window.addEventListener('load',function(){if(typeof I18n!=='undefined'&&I18n.lang()!=='"@ =~= "']"@ + ",configurable:true});window.addEventListener('load',function(){if(typeof I18n!=='undefined'&&"@ + "I18n.lang()!=='"@);
    assert("');}})})();"@ =~= "');"@ + "}})})();"@);
    let s = spec_init_script(l);
    let a1 = "(function(){localStorage.setItem("@;
    let f1 = "'clacky-lang','"@ + l + "');"@;
    let b1 = "Object.defineProperty("@ + "navigator,'language',{value:'"@ + l + "-CN',configurable:true});Object.defineProperty(navigator,'languages',{value:['"@ + l + "-CN','"@ + l + "'],configurable:true});window.addEventListener('load',function(){if(typeof I18n!=='undefined'&&I18n.lang()!=='"@ + l + "'){I18n.setLang('"@ + l + "');}})})();"@;
    assert(s =~= a1 + f1 + b1);
    let a2 = "(function(){localStorage.setItem('clacky-lang','"@ + l + "');"@ + "Object.defineProperty("@;
    let f2 = "navigator,'language',{value:'"@ + l + "-CN'"@;
    let b2 = ",configurable:true});Object.defineProperty("@ + "navigator,'languages',{value:['"@ + l + "-CN','"@ + l + "'],configurable:true});window.addEventListener('load',function(){if(typeof I18n!=='undefined'&&I18n.lang()!=='"@ + l + "'){I18n.setLang('"@ + l + "');}})})();"@;
    assert(s =~= a2 + f2 + b2);
    let a3 = "(function(){localStorage.setItem('clacky-lang','"@ + l + "');Object.defineProperty(navigator,'language',{value:'"@ + l + "-CN'"@ + ",configurable:true});Object.defineProperty("@;
    let f3 = "navigator,'languages',{value:['"@ + l + "-CN','"@ + l + "']"@;
    let b3 = ",configurable:true});window.addEventListener('load',function(){if(typeof I18n!=='undefined'&&"@ + "I18n.lang()!=='"@ + l + "'){I18n.setLang('"@ + l + "');}})})();"@;
    assert(s =~= a3 + f3 + b3);
    let a4 = "(function(){localStorage.setItem('clacky-lang','"@ + l + "');Object.defineProperty(navigator,'language',{value:'"@ + l + "-CN',configurable:true});Object.defineProperty(navigator,'languages',{value:['"@ + l + "-CN','"@ + l + "']"@ + ",configurable:true});window.addEventListener('load',function(){if(typeof I18n!=='undefined'&&"@;
    let f4 = "I18n.lang()!=='"@ + l + "'){I18n.setLang('"@ + l + "');"@;
    let b4 = "}})})();"@;
    assert(s =~= a4 + f4 + b4);
}

} // verus!
