//! The sidecar service: where its program is looked for, where its files
//! lie, how its process id is recorded, and what its messages say.
use vstd::prelude::*;
use vstd::string::*;
use crate::paths::{grandparent, grandparent_dir, join_path, joined, opt_string_view};
use crate::text::{decimal, decimal_string, parse_trimmed_u32, parse_u32, trim, trim_str};

verus! {

/// The port on which the sidecar service is started.
pub const DEFAULT_PORT: u16 = 7070;

/// How long the service is given to answer after it is spawned, in seconds.
pub const READY_TIMEOUT_SECS: u64 = 30;

pub open spec fn spec_command() -> Seq<char> {
    "ever-living"@
}

/// The file, within the application's data directory `dir`, that records the
/// process id of the running service.
pub fn pid_path(dir: &str) -> (p: String)
    ensures
        p@ == joined(dir@, "sidecar.pid"@),
{
    join_path(dir, "sidecar.pid")
}

/// The file, within `dir`, that receives the service's output.
pub fn log_path(dir: &str) -> (p: String)
    ensures
        p@ == joined(dir@, "sidecar.log"@),
{
    join_path(dir, "sidecar.log")
}

/// The text written to the pid file for `pid`.
pub fn pid_file_text(pid: u32) -> (t: String)
    ensures
        t@ == decimal(pid as nat),
{
    decimal_string(pid as u64)
}

/// The process id that a pid file holding `text` names: its trimmed text read
/// as a `u32`, or none when it does not read so.
pub fn pid_from_file_text(text: &str) -> (pid: Option<u32>)
    ensures
        pid == parse_u32(trim(text@)),
{
    parse_trimmed_u32(text)
}

/// Reading back what was written to the pid file gives the same process id.
pub proof fn lemma_pid_file_roundtrip(pid: u32)
    ensures
        parse_u32(trim(decimal(pid as nat))) == Some(pid),
{
    crate::text::lemma_decimal_parse_roundtrip(pid);
}

/// The directories searched, after the bundle, for the program.
pub open spec fn system_dirs() -> Seq<Seq<char>> {
    seq!["/usr/local/bin"@, "/opt/homebrew/bin"@, "/usr/bin"@]
}

/// The Ruby versions whose gem directories are searched, in order.
pub open spec fn ruby_versions() -> Seq<Seq<char>> {
    seq!["3.3.0"@, "3.2.0"@, "3.1.0"@, "3.0.0"@, "2.7.0"@, "2.6.0"@]
}

/// Where the program lies inside an application bundle whose `Contents`
/// directory is `contents`.
pub open spec fn bundled_program(contents: Seq<char>) -> Seq<char> {
    joined(joined(contents, "Resources"@), spec_command())
}

/// Where the program lies among the gems of Ruby `version` under `home`.
pub open spec fn gem_program(home: Seq<char>, version: Seq<char>) -> Seq<char> {
    joined(joined(joined(joined(home, ".gem/ruby"@), version), "bin"@), spec_command())
}

/// The paths at which the program is looked for, in order: the one named by
/// the environment, the one inside the bundle of the running executable
/// `exe`, the system directories, then the gem directories under `home`.
pub open spec fn program_candidates(
    env_bin: Option<Seq<char>>,
    exe: Option<Seq<char>>,
    home: Option<Seq<char>>,
) -> Seq<Seq<char>> {
    let from_env = match env_bin {
        Some(p) => seq![p],
        None => seq![],
    };
    let from_bundle = match exe {
        Some(e) => match grandparent(e) {
            Some(c) => seq![bundled_program(c)],
            None => seq![],
        },
        None => seq![],
    };
    let from_system = system_dirs().map_values(|d: Seq<char>| joined(d, spec_command()));
    let from_gems = match home {
        Some(h) => ruby_versions().map_values(|v: Seq<char>| gem_program(h, v)),
        None => seq![],
    };
    from_env + from_bundle + from_system + from_gems
}

pub open spec fn strings_view(v: Seq<String>) -> Seq<Seq<char>> {
    v.map_values(|s: String| s@)
}

fn push_candidate(v: &mut Vec<String>, s: String)
    ensures
        strings_view(final(v)@) == strings_view(old(v)@).push(s@),
{
    v.push(s);
    assert(strings_view(v@) =~= strings_view(old(v)@).push(s@));
}

fn program_in(dir: &str) -> (p: String)
    ensures
        p@ == joined(dir@, spec_command()),
{
    join_path(dir, "ever-living")
}

fn append_all(v: &mut Vec<String>, w: Vec<String>)
    ensures
        strings_view(final(v)@) == strings_view(old(v)@) + strings_view(w@),
{
    let mut i: usize = 0;
    while i < w.len()
        invariant
            i <= w@.len(),
            strings_view(v@) == strings_view(old(v)@) + strings_view(w@.take(i as int)),
        decreases w@.len() - i,
    {
        let s = w[i].clone();
        push_candidate(v, s);
        assert(w@.take(i + 1) =~= w@.take(i as int).push(w@[i as int]));
        assert(strings_view(w@.take(i + 1)) =~= strings_view(w@.take(i as int)).push(w@[i as int]@));
        i = i + 1;
    }
    assert(w@.take(w@.len() as int) =~= w@);
}

fn system_candidates() -> (v: Vec<String>)
    ensures
        strings_view(v@) == system_dirs().map_values(|d: Seq<char>| joined(d, spec_command())),
{
    let mut v: Vec<String> = Vec::new();
    push_candidate(&mut v, program_in("/usr/local/bin"));
    push_candidate(&mut v, program_in("/opt/homebrew/bin"));
    push_candidate(&mut v, program_in("/usr/bin"));
    assert(strings_view(v@) =~= system_dirs().map_values(
        |d: Seq<char>| joined(d, spec_command()),
    ));
    v
}

fn gem_candidate(base: &str, version: &str) -> (p: String)
    ensures
        p@ == joined(joined(joined(base@, version@), "bin"@), spec_command()),
{
    let with_version = join_path(base, version);
    let bin = join_path(with_version.as_str(), "bin");
    program_in(bin.as_str())
}

fn gem_candidates(home: &str) -> (v: Vec<String>)
    ensures
        strings_view(v@) == ruby_versions().map_values(|ver: Seq<char>| gem_program(home@, ver)),
{
    let base = join_path(home, ".gem/ruby");
    let mut v: Vec<String> = Vec::new();
    push_candidate(&mut v, gem_candidate(base.as_str(), "3.3.0"));
    push_candidate(&mut v, gem_candidate(base.as_str(), "3.2.0"));
    push_candidate(&mut v, gem_candidate(base.as_str(), "3.1.0"));
    push_candidate(&mut v, gem_candidate(base.as_str(), "3.0.0"));
    push_candidate(&mut v, gem_candidate(base.as_str(), "2.7.0"));
    push_candidate(&mut v, gem_candidate(base.as_str(), "2.6.0"));
    assert(strings_view(v@) =~= ruby_versions().map_values(
        |ver: Seq<char>| gem_program(home@, ver),
    ));
    v
}

pub open spec fn opt_str_view(o: Option<&str>) -> Option<Seq<char>> {
    match o {
        Some(s) => Some(s@),
        None => None,
    }
}

/// The candidate paths of the program, in the order they are tried. `env_bin`
/// is the value of `EVER_LIVING_BIN`, or else of `CLACKY_BIN`; `exe` is the
/// path of the running executable; `home` is `HOME`.
pub fn program_candidates_of(env_bin: Option<&str>, exe: Option<&str>, home: Option<&str>) -> (v:
    Vec<String>)
    ensures
        strings_view(v@) == program_candidates(
            opt_str_view(env_bin),
            opt_str_view(exe),
            opt_str_view(home),
        ),
{
    let mut v: Vec<String> = Vec::new();
    if let Some(p) = env_bin {
        push_candidate(&mut v, p.to_owned());
    }
    if let Some(e) = exe {
        let contents = grandparent_dir(e);
        if let Some(c) = contents {
            let res = join_path(c.as_str(), "Resources");
            push_candidate(&mut v, program_in(res.as_str()));
        }
    }
    let ghost before = strings_view(v@);
    append_all(&mut v, system_candidates());
    let ghost middle = strings_view(v@);
    match home {
        Some(h) => append_all(&mut v, gem_candidates(h)),
        None => {},
    }
    proof {
        let from_env = match opt_str_view(env_bin) {
            Some(p) => seq![p],
            None => seq![],
        };
        let from_bundle = match opt_str_view(exe) {
            Some(e) => match grandparent(e) {
                Some(c) => seq![bundled_program(c)],
                None => seq![],
            },
            None => seq![],
        };
        assert(before =~= from_env + from_bundle);
        if home.is_none() {
            assert(strings_view(v@) =~= middle + Seq::<Seq<char>>::empty());
        }
    }
    v
}

/// The answer of `which` for the program: its trimmed output, unless that is
/// empty.
pub fn which_answer(stdout: &str) -> (r: Option<String>)
    ensures
        opt_string_view(r) == (if trim(stdout@).len() > 0 {
            Some(trim(stdout@))
        } else {
            None
        }),
{
    let t = trim_str(stdout);
    if t.as_str().unicode_len() > 0 {
        Some(t)
    } else {
        None
    }
}

pub open spec fn spec_missing_program() -> Seq<char> {
    "找不到 Ever-Living sidecar。请安装 ever-living 命令。"@
}

/// The message when the program is found nowhere.
pub fn missing_program() -> (m: String)
    ensures
        m@ == spec_missing_program(),
{
    "找不到 Ever-Living sidecar。请安装 ever-living 命令。".to_owned()
}

pub open spec fn found_msg(n: nat) -> Seq<char> {
    "[Ever-Living] 发现 "@ + decimal(n) + " 个残留 sidecar 进程，正在清理"@
}

pub open spec fn cleared_msg(n: nat) -> Seq<char> {
    "[Ever-Living] 已清理 "@ + decimal(n) + " 个残留进程"@
}

pub open spec fn stale_msg(pid: u32) -> Seq<char> {
    "[Ever-Living] 清理残留 PID="@ + decimal(pid as nat)
}

pub open spec fn forced_msg(pid: u32) -> Seq<char> {
    "[Ever-Living] Sidecar 强制终止 PID="@ + decimal(pid as nat)
}

pub open spec fn stopped_msg(pid: u32) -> Seq<char> {
    "[Ever-Living] Sidecar 已停止 PID="@ + decimal(pid as nat)
}

pub open spec fn started_msg(pid: u32, port: u16) -> Seq<char> {
    "[Ever-Living] Sidecar 已启动 PID="@ + decimal(pid as nat) + " 端口="@ + decimal(port as nat)
}

pub open spec fn make_dir_err(dir: Seq<char>, e: Seq<char>) -> Seq<char> {
    "无法创建应用数据目录 "@ + dir + ": "@ + e
}

pub open spec fn read_pid_err(e: Seq<char>) -> Seq<char> {
    "读取PID: "@ + e
}

pub open spec fn delete_pid_err(e: Seq<char>) -> Seq<char> {
    "删除PID: "@ + e
}

pub open spec fn write_pid_err(e: Seq<char>) -> Seq<char> {
    "写入PID: "@ + e
}

pub open spec fn create_log_err(log: Seq<char>, e: Seq<char>) -> Seq<char> {
    "无法创建日志 "@ + log + ": "@ + e
}

pub open spec fn share_log_err(e: Seq<char>) -> Seq<char> {
    "无法复制日志文件句柄: "@ + e
}

pub open spec fn spawn_err(e: Seq<char>, bin: Seq<char>, port: u16) -> Seq<char> {
    "启动失败: "@ + e + "\n命令: "@ + bin + " server --port "@ + decimal(port as nat)
}

pub open spec fn timeout_err(secs: u64, port: u16) -> Seq<char> {
    "服务在 "@ + decimal(secs as nat) + "s 内未在端口 "@ + decimal(port as nat) + " 就绪"@
}

/// `prefix`, then `n` in decimal, then `suffix`.
fn around_number(prefix: &str, n: u64, suffix: &str) -> (m: String)
    ensures
        m@ == prefix@ + decimal(n as nat) + suffix@,
{
    let mut m = prefix.to_owned();
    let digits = decimal_string(n);
    m.append(digits.as_str());
    m.append(suffix);
    m
}

/// `a`, `b`, `c` and `d` one after another.
fn concat4(a: &str, b: &str, c: &str, d: &str) -> (m: String)
    ensures
        m@ == a@ + b@ + c@ + d@,
{
    let mut m = a.to_owned();
    m.append(b);
    m.append(c);
    m.append(d);
    m
}

pub fn found_line(n: usize) -> (m: String)
    ensures
        m@ == found_msg(n as nat),
{
    around_number("[Ever-Living] 发现 ", n as u64, " 个残留 sidecar 进程，正在清理")
}

pub fn cleared_line(n: usize) -> (m: String)
    ensures
        m@ == cleared_msg(n as nat),
{
    around_number("[Ever-Living] 已清理 ", n as u64, " 个残留进程")
}

pub fn stale_line(pid: u32) -> (m: String)
    ensures
        m@ == stale_msg(pid),
{
    let m = around_number("[Ever-Living] 清理残留 PID=", pid as u64, "");
    proof {
        reveal_strlit("");
    }
    assert(m@ =~= stale_msg(pid));
    m
}

pub fn forced_line(pid: u32) -> (m: String)
    ensures
        m@ == forced_msg(pid),
{
    let m = around_number("[Ever-Living] Sidecar 强制终止 PID=", pid as u64, "");
    proof {
        reveal_strlit("");
    }
    assert(m@ =~= forced_msg(pid));
    m
}

pub fn stopped_line(pid: u32) -> (m: String)
    ensures
        m@ == stopped_msg(pid),
{
    let m = around_number("[Ever-Living] Sidecar 已停止 PID=", pid as u64, "");
    proof {
        reveal_strlit("");
    }
    assert(m@ =~= stopped_msg(pid));
    m
}

pub fn started_line(pid: u32, port: u16) -> (m: String)
    ensures
        m@ == started_msg(pid, port),
{
    let mut m = around_number("[Ever-Living] Sidecar 已启动 PID=", pid as u64, " 端口=");
    let digits = decimal_string(port as u64);
    m.append(digits.as_str());
    m
}

pub fn make_dir_error(dir: &str, e: &str) -> (m: String)
    ensures
        m@ == make_dir_err(dir@, e@),
{
    concat4("无法创建应用数据目录 ", dir, ": ", e)
}

pub fn read_pid_error(e: &str) -> (m: String)
    ensures
        m@ == read_pid_err(e@),
{
    let mut m = "读取PID: ".to_owned();
    m.append(e);
    m
}

pub fn delete_pid_error(e: &str) -> (m: String)
    ensures
        m@ == delete_pid_err(e@),
{
    let mut m = "删除PID: ".to_owned();
    m.append(e);
    m
}

pub fn write_pid_error(e: &str) -> (m: String)
    ensures
        m@ == write_pid_err(e@),
{
    let mut m = "写入PID: ".to_owned();
    m.append(e);
    m
}

pub fn create_log_error(log: &str, e: &str) -> (m: String)
    ensures
        m@ == create_log_err(log@, e@),
{
    concat4("无法创建日志 ", log, ": ", e)
}

pub fn share_log_error(e: &str) -> (m: String)
    ensures
        m@ == share_log_err(e@),
{
    let mut m = "无法复制日志文件句柄: ".to_owned();
    m.append(e);
    m
}

pub fn spawn_error(e: &str, bin: &str, port: u16) -> (m: String)
    ensures
        m@ == spawn_err(e@, bin@, port),
{
    let mut m = concat4("启动失败: ", e, "\n命令: ", bin);
    m.append(" server --port ");
    let digits = decimal_string(port as u64);
    m.append(digits.as_str());
    m
}

pub fn timeout_error(secs: u64, port: u16) -> (m: String)
    ensures
        m@ == timeout_err(secs, port),
{
    let mut m = around_number("服务在 ", secs, "s 内未在端口 ");
    let digits = decimal_string(port as u64);
    m.append(digits.as_str());
    m.append(" 就绪");
    m
}

/// The program inside the application bundle is looked for whether or not
/// the environment names a program: a path from the environment only comes
/// in front of the same candidates.
pub proof fn law_env_only_prepends(
    env_bin: Seq<char>,
    exe: Option<Seq<char>>,
    home: Option<Seq<char>>,
)
    ensures
        program_candidates(Some(env_bin), exe, home) == seq![env_bin] + program_candidates(
            None,
            exe,
            home,
        ),
{
    assert(program_candidates(Some(env_bin), exe, home) =~= seq![env_bin] + program_candidates(
        None,
        exe,
        home,
    ));
}

/// When the running executable lies two levels below a directory `c` (the
/// bundle's `Contents`), the first place looked at without an environment
/// override is `c/Resources/ever-living`, before any system directory.
pub proof fn law_bundle_first(exe: Seq<char>, home: Option<Seq<char>>, c: Seq<char>)
    requires
        grandparent(exe) == Some(c),
    ensures
        program_candidates(None, Some(exe), home)[0] == joined(
            joined(c, "Resources"@),
            "ever-living"@,
        ),
        program_candidates(None, Some(exe), home)[1] == joined("/usr/local/bin"@, "ever-living"@),
{
}

} // verus!
