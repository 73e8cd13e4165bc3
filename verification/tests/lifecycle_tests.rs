use ever_living::lifecycle::{Action, Finish, Job, Outcome};
use ever_living::lifecycle_model::Signal;

/// Feeds `outcomes` to `job` one by one and returns every action it asked for.
fn run(mut job: Job, outcomes: Vec<Outcome>) -> Vec<Action> {
    let mut actions = Vec::new();
    for o in outcomes {
        actions.push(job.action());
        job = job.advance(&o);
    }
    actions.push(job.action());
    actions
}

fn log(line: &str) -> Action {
    Action::Log { line: line.to_string() }
}

fn send(pid: u32, signal: Signal) -> Action {
    Action::Send { pid, signal }
}

fn server_args() -> Vec<String> {
    vec!["server", "--port", "7070", "--host", "127.0.0.1"].into_iter().map(String::from).collect()
}

#[test]
fn sweep_without_listing_counts_nothing() {
    let a = run(Job::kill_all_sidecars(), vec![Outcome::Listing(None)]);
    assert_eq!(a, vec![Action::ListSidecars, Action::Finish(Finish::Swept(0))]);
}

#[test]
fn sweep_with_empty_listing_counts_nothing() {
    let a = run(Job::kill_all_sidecars(), vec![Outcome::Listing(Some("\n".to_string()))]);
    assert_eq!(a, vec![Action::ListSidecars, Action::Finish(Finish::Swept(0))]);
}

#[test]
fn sweep_terminates_all_then_kills_survivors() {
    let a = run(
        Job::kill_all_sidecars(),
        vec![
            Outcome::Listing(Some("12\n34\n12\n".to_string())),
            Outcome::Done,
            Outcome::Done,
            Outcome::Done,
            Outcome::Done,
            Outcome::Alive(true),
            Outcome::Done,
            Outcome::Alive(false),
        ],
    );
    assert_eq!(
        a,
        vec![
            Action::ListSidecars,
            log("[Ever-Living] 发现 2 个残留 sidecar 进程，正在清理"),
            send(12, Signal::Terminate),
            send(34, Signal::Terminate),
            Action::Sleep { millis: 2000 },
            Action::Probe { pid: 12 },
            send(12, Signal::Kill),
            Action::Probe { pid: 34 },
            Action::Finish(Finish::Swept(2)),
        ]
    );
}

#[test]
fn an_outcome_that_does_not_answer_leaves_the_job() {
    let a = run(
        Job::kill_all_sidecars(),
        vec![Outcome::Alive(true), Outcome::Done, Outcome::Listing(None)],
    );
    assert_eq!(
        a,
        vec![
            Action::ListSidecars,
            Action::ListSidecars,
            Action::ListSidecars,
            Action::Finish(Finish::Swept(0)),
        ]
    );
}

#[test]
fn start_sweeps_cleans_up_spawns_and_waits() {
    let a = run(
        Job::start("/data", 7070),
        vec![
            Outcome::Located("/usr/bin/ever-living".to_string()),
            Outcome::Done,
            Outcome::Listing(Some("77\n".to_string())),
            Outcome::Done,
            Outcome::Done,
            Outcome::Done,
            Outcome::Alive(false),
            Outcome::Done,
            Outcome::PidFile(Some("99\n".to_string())),
            Outcome::Alive(true),
            Outcome::Done,
            Outcome::Done,
            Outcome::Done,
            Outcome::Alive(true),
            Outcome::Done,
            Outcome::Done,
            Outcome::Done,
            Outcome::Done,
            Outcome::Spawned(555),
            Outcome::Done,
            Outcome::Done,
            Outcome::Done,
            Outcome::Expired(false),
            Outcome::Status(None),
            Outcome::Done,
            Outcome::Expired(false),
            Outcome::Status(Some(503)),
            Outcome::Done,
            Outcome::Expired(false),
            Outcome::Status(Some(200)),
            Outcome::Done,
        ],
    );
    assert_eq!(
        a,
        vec![
            Action::Locate,
            Action::CreateDataDir { path: "/data".to_string() },
            Action::ListSidecars,
            log("[Ever-Living] 发现 1 个残留 sidecar 进程，正在清理"),
            send(77, Signal::Terminate),
            Action::Sleep { millis: 2000 },
            Action::Probe { pid: 77 },
            log("[Ever-Living] 已清理 1 个残留进程"),
            Action::ReadPidFile { path: "/data/sidecar.pid".to_string() },
            Action::Probe { pid: 99 },
            log("[Ever-Living] 清理残留 PID=99"),
            send(99, Signal::Terminate),
            Action::Sleep { millis: 1000 },
            Action::Probe { pid: 99 },
            send(99, Signal::Kill),
            Action::RemovePidFile { path: "/data/sidecar.pid".to_string() },
            Action::CreateLog { path: "/data/sidecar.log".to_string() },
            Action::ShareLog,
            Action::Spawn { program: "/usr/bin/ever-living".to_string(), args: server_args() },
            Action::WritePidFile {
                path: "/data/sidecar.pid".to_string(),
                text: "555".to_string(),
            },
            Action::Watch,
            Action::StartClock { secs: 30 },
            Action::CheckClock,
            Action::Fetch { url: "http://127.0.0.1:7070/".to_string() },
            Action::Sleep { millis: 500 },
            Action::CheckClock,
            Action::Fetch { url: "http://127.0.0.1:7070/".to_string() },
            Action::Sleep { millis: 500 },
            Action::CheckClock,
            Action::Fetch { url: "http://127.0.0.1:7070/".to_string() },
            log("[Ever-Living] Sidecar 已启动 PID=555 端口=7070"),
            Action::Finish(Finish::Started(555, 7070)),
        ]
    );
}

/// The outcomes that bring a start from the beginning to opening the log,
/// with nothing left to clean up.
fn quiet_start_prefix() -> Vec<Outcome> {
    vec![
        Outcome::Located("/bin/el".to_string()),
        Outcome::Done,
        Outcome::Listing(None),
        Outcome::PidFile(None),
    ]
}

fn last(a: Vec<Action>) -> Action {
    a.into_iter().last().unwrap()
}

fn failed(msg: &str) -> Action {
    Action::Finish(Finish::Failed(msg.to_string()))
}

#[test]
fn start_failures_report_their_cause() {
    let missing = "找不到 Ever-Living sidecar。请安装 ever-living 命令。";
    assert_eq!(last(run(Job::start("/d", 7070), vec![Outcome::Failed(missing.to_string())])), failed(missing));

    let mkdir = vec![Outcome::Located("/bin/el".to_string()), Outcome::Failed("denied".to_string())];
    assert_eq!(last(run(Job::start("/d", 7070), mkdir)), failed("无法创建应用数据目录 /d: denied"));

    let mut read = quiet_start_prefix();
    read.pop();
    read.push(Outcome::Failed("eio".to_string()));
    assert_eq!(last(run(Job::start("/d", 7070), read)), failed("读取PID: eio"));

    let mut remove = quiet_start_prefix();
    remove.pop();
    remove.push(Outcome::PidFile(Some("5".to_string())));
    remove.push(Outcome::Alive(false));
    remove.push(Outcome::Failed("busy".to_string()));
    assert_eq!(last(run(Job::start("/d", 7070), remove)), failed("删除PID: busy"));

    let mut log = quiet_start_prefix();
    log.push(Outcome::Failed("ro".to_string()));
    assert_eq!(last(run(Job::start("/d", 7070), log)), failed("无法创建日志 /d/sidecar.log: ro"));

    let mut share = quiet_start_prefix();
    share.push(Outcome::Done);
    share.push(Outcome::Failed("fd".to_string()));
    assert_eq!(last(run(Job::start("/d", 7070), share)), failed("无法复制日志文件句柄: fd"));

    let mut spawn = quiet_start_prefix();
    spawn.push(Outcome::Done);
    spawn.push(Outcome::Done);
    spawn.push(Outcome::Failed("no such file".to_string()));
    assert_eq!(
        last(run(Job::start("/d", 7070), spawn)),
        failed("启动失败: no such file\n命令: /bin/el server --port 7070")
    );

    let mut write = quiet_start_prefix();
    write.push(Outcome::Done);
    write.push(Outcome::Done);
    write.push(Outcome::Spawned(8));
    write.push(Outcome::Failed("full".to_string()));
    assert_eq!(last(run(Job::start("/d", 7070), write)), failed("写入PID: full"));

    let mut timeout = quiet_start_prefix();
    for o in [Outcome::Done, Outcome::Done, Outcome::Spawned(8), Outcome::Done, Outcome::Done, Outcome::Done] {
        timeout.push(o);
    }
    timeout.push(Outcome::Expired(true));
    assert_eq!(last(run(Job::start("/d", 7070), timeout)), failed("服务在 30s 内未在端口 7070 就绪"));
}

#[test]
fn start_ignores_an_unreadable_pid_file() {
    let mut outs = quiet_start_prefix();
    outs.pop();
    outs.push(Outcome::PidFile(Some("not a pid".to_string())));
    assert_eq!(last(run(Job::start("/d", 7070), outs)), Action::CreateLog { path: "/d/sidecar.log".to_string() });
}

#[test]
fn stop_without_pid_file_only_sweeps() {
    let a = run(Job::stop("/d"), vec![Outcome::PidFile(None), Outcome::Listing(None)]);
    assert_eq!(
        a,
        vec![
            Action::ReadPidFile { path: "/d/sidecar.pid".to_string() },
            Action::ListSidecars,
            Action::Finish(Finish::Stopped),
        ]
    );
}

#[test]
fn stop_waits_six_rounds_then_kills() {
    let mut outs = vec![Outcome::PidFile(Some("42\n".to_string())), Outcome::Alive(true), Outcome::Done];
    for _ in 0..6 {
        outs.push(Outcome::Alive(true));
        outs.push(Outcome::Done);
    }
    outs.push(Outcome::Alive(true));
    outs.push(Outcome::Done);
    outs.push(Outcome::Done);
    outs.push(Outcome::Done);
    outs.push(Outcome::Listing(Some(String::new())));
    let a = run(Job::stop("/d"), outs);
    let mut expected = vec![
        Action::ReadPidFile { path: "/d/sidecar.pid".to_string() },
        Action::Probe { pid: 42 },
        send(42, Signal::Terminate),
    ];
    for _ in 0..6 {
        expected.push(Action::Probe { pid: 42 });
        expected.push(Action::Sleep { millis: 500 });
    }
    expected.push(Action::Probe { pid: 42 });
    expected.push(send(42, Signal::Kill));
    expected.push(log("[Ever-Living] Sidecar 强制终止 PID=42"));
    expected.push(Action::RemovePidFile { path: "/d/sidecar.pid".to_string() });
    expected.push(Action::ListSidecars);
    expected.push(Action::Finish(Finish::Stopped));
    assert_eq!(a, expected);
}

#[test]
fn stop_of_a_process_that_exits() {
    let a = run(
        Job::stop("/d"),
        vec![
            Outcome::PidFile(Some("42".to_string())),
            Outcome::Alive(true),
            Outcome::Done,
            Outcome::Alive(true),
            Outcome::Done,
            Outcome::Alive(false),
            Outcome::Alive(false),
            Outcome::Done,
            Outcome::Done,
            Outcome::Listing(None),
        ],
    );
    assert_eq!(
        a,
        vec![
            Action::ReadPidFile { path: "/d/sidecar.pid".to_string() },
            Action::Probe { pid: 42 },
            send(42, Signal::Terminate),
            Action::Probe { pid: 42 },
            Action::Sleep { millis: 500 },
            Action::Probe { pid: 42 },
            Action::Probe { pid: 42 },
            log("[Ever-Living] Sidecar 已停止 PID=42"),
            Action::RemovePidFile { path: "/d/sidecar.pid".to_string() },
            Action::ListSidecars,
            Action::Finish(Finish::Stopped),
        ]
    );
}

#[test]
fn stop_of_a_dead_process_removes_its_pid_file() {
    let a = run(
        Job::stop("/d"),
        vec![Outcome::PidFile(Some("42".to_string())), Outcome::Alive(false), Outcome::Done, Outcome::Listing(None)],
    );
    assert_eq!(
        a,
        vec![
            Action::ReadPidFile { path: "/d/sidecar.pid".to_string() },
            Action::Probe { pid: 42 },
            Action::RemovePidFile { path: "/d/sidecar.pid".to_string() },
            Action::ListSidecars,
            Action::Finish(Finish::Stopped),
        ]
    );
}

#[test]
fn stop_failures_report_their_cause() {
    assert_eq!(last(run(Job::stop("/d"), vec![Outcome::Failed("eio".to_string())])), failed("读取PID: eio"));
    assert_eq!(
        last(run(
            Job::stop("/d"),
            vec![Outcome::PidFile(Some("42".to_string())), Outcome::Alive(false), Outcome::Failed("busy".to_string())]
        )),
        failed("删除PID: busy")
    );
}

#[test]
fn start_uses_the_port_it_is_given() {
    let a = run(
        Job::start("/d", 8123),
        vec![
            Outcome::Located("/bin/el".to_string()),
            Outcome::Done,
            Outcome::Listing(None),
            Outcome::PidFile(None),
            Outcome::Done,
            Outcome::Done,
            Outcome::Spawned(9),
            Outcome::Done,
            Outcome::Done,
            Outcome::Done,
            Outcome::Expired(false),
            Outcome::Status(Some(200)),
            Outcome::Done,
        ],
    );
    let args: Vec<String> =
        vec!["server", "--port", "8123", "--host", "127.0.0.1"].into_iter().map(String::from).collect();
    assert!(a.contains(&Action::Spawn { program: "/bin/el".to_string(), args }));
    assert!(a.contains(&Action::Fetch { url: "http://127.0.0.1:8123/".to_string() }));
    assert!(a.contains(&log("[Ever-Living] Sidecar 已启动 PID=9 端口=8123")));
    assert_eq!(a.last(), Some(&Action::Finish(Finish::Started(9, 8123))));
}

#[test]
fn start_timeout_names_the_port() {
    let a = run(
        Job::start("/d", 8123),
        vec![
            Outcome::Located("/bin/el".to_string()),
            Outcome::Done,
            Outcome::Listing(None),
            Outcome::PidFile(None),
            Outcome::Done,
            Outcome::Done,
            Outcome::Failed("boom".to_string()),
        ],
    );
    assert_eq!(last(a), failed("启动失败: boom\n命令: /bin/el server --port 8123"));
}
