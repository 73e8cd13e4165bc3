//! The user's preferences and where they are kept.
use vstd::prelude::*;
use vstd::string::*;
use crate::paths::{join_path, joined};

verus! {

/// The settings shown in the preferences window.
#[derive(Debug, Clone, PartialEq, Eq)]
pub struct Preferences {
    /// Port of the sidecar service.
    pub port: u16,
    /// Start at login.
    pub autostart: bool,
    /// Global shortcut.
    pub shortcut: String,
    /// Whether notifications are shown.
    pub notifications_enabled: bool,
    /// Interface language: "zh-CN" or "en".
    pub locale: String,
}

pub open spec fn spec_default_shortcut() -> Seq<char> {
    "CmdOrCtrl+Shift+O"@
}

pub open spec fn spec_default_locale() -> Seq<char> {
    "zh-CN"@
}

/// Holds of the preferences that a fresh installation starts with.
pub open spec fn is_default(p: Preferences) -> bool {
    &&& p.port == 7070
    &&& !p.autostart
    &&& p.shortcut@ == spec_default_shortcut()
    &&& p.notifications_enabled
    &&& p.locale@ == spec_default_locale()
}

/// The port used when none is stored.
pub fn default_port() -> (port: u16)
    ensures
        port == 7070,
{
    7070
}

/// The shortcut used when none is stored.
pub fn default_shortcut() -> (s: String)
    ensures
        s@ == spec_default_shortcut(),
{
    "CmdOrCtrl+Shift+O".to_owned()
}

/// The value of a switch that is on unless stored otherwise.
pub fn default_true() -> (b: bool)
    ensures
        b,
{
    true
}

/// The locale used when none is stored.
pub fn default_locale() -> (s: String)
    ensures
        s@ == spec_default_locale(),
{
    "zh-CN".to_owned()
}

impl Default for Preferences {
    fn default() -> (p: Self)
        ensures
            is_default(p),
    {
        Preferences {
            port: default_port(),
            autostart: false,
            shortcut: default_shortcut(),
            notifications_enabled: true,
            locale: default_locale(),
        }
    }
}

/// The preferences in effect after a load: what was read, or the defaults
/// when nothing could be read (no directory, no file, an unreadable file, or
/// text that does not parse).
pub fn loaded_or_default(read: Option<Preferences>) -> (p: Preferences)
    ensures
        read matches Some(r) ==> p == r,
        read is None ==> is_default(p),
{
    match read {
        Some(r) => r,
        None => Preferences::default(),
    }
}

pub open spec fn spec_prefs_dir(home: Seq<char>) -> Seq<char> {
    joined(home, "Library/Application Support/com.weifengchen.ever-living"@)
}

pub open spec fn spec_prefs_file(home: Seq<char>) -> Seq<char> {
    joined(spec_prefs_dir(home), "preferences.json"@)
}

/// The directory that holds the preferences file, under the home directory
/// `home` (empty when `HOME` is unset).
pub fn prefs_dir(home: &str) -> (d: String)
    ensures
        d@ == spec_prefs_dir(home@),
{
    join_path(home, "Library/Application Support/com.weifengchen.ever-living")
}

/// The preferences file within `dir`.
pub fn prefs_file(dir: &str) -> (f: String)
    ensures
        f@ == joined(dir@, "preferences.json"@),
{
    join_path(dir, "preferences.json")
}

/// The message when the preferences directory cannot be created.
pub fn create_dir_failed(detail: &str) -> (m: String)
    ensures
        m@ == "创建配置目录失败: "@ + detail@,
{
    let mut m = "创建配置目录失败: ".to_owned();
    m.append(detail);
    m
}

/// The log line when the preferences file cannot be read.
pub fn read_failed_log(detail: &str) -> (m: String)
    ensures
        m@ == "[Ever-Living] 读取配置失败: "@ + detail@,
{
    let mut m = "[Ever-Living] 读取配置失败: ".to_owned();
    m.append(detail);
    m
}

/// The message when the preferences cannot be turned into text.
pub fn serialize_failed(detail: &str) -> (m: String)
    ensures
        m@ == "序列化失败: "@ + detail@,
{
    let mut m = "序列化失败: ".to_owned();
    m.append(detail);
    m
}

/// The message when the preferences file cannot be written.
pub fn write_failed(detail: &str) -> (m: String)
    ensures
        m@ == "写入配置失败: "@ + detail@,
{
    let mut m = "写入配置失败: ".to_owned();
    m.append(detail);
    m
}

} // verus!
