use ever_living::sidecar::{
    cleared_line, create_log_error, delete_pid_error, forced_line, found_line, log_path,
    make_dir_error, missing_program, pid_path, program_candidates_of, read_pid_error,
    share_log_error, spawn_error, stale_line, started_line, stopped_line, timeout_error,
    which_answer, write_pid_error, DEFAULT_PORT, READY_TIMEOUT_SECS,
};

#[test]
fn sidecar_files_lie_in_the_data_directory() {
    assert_eq!(pid_path("/data/app"), "/data/app/sidecar.pid");
    assert_eq!(log_path("/data/app/"), "/data/app/sidecar.log");
    assert_eq!(DEFAULT_PORT, 7070);
    assert_eq!(READY_TIMEOUT_SECS, 30);
}

#[test]
fn program_is_looked_for_in_order() {
    let c = program_candidates_of(
        Some("/opt/custom/ever-living"),
        Some("/Applications/Ever-Living.app/Contents/MacOS/ever-living-tray"),
        Some("/Users/ada"),
    );
    let expected = vec![
        "/opt/custom/ever-living",
        "/Applications/Ever-Living.app/Contents/Resources/ever-living",
        "/usr/local/bin/ever-living",
        "/opt/homebrew/bin/ever-living",
        "/usr/bin/ever-living",
        "/Users/ada/.gem/ruby/3.3.0/bin/ever-living",
        "/Users/ada/.gem/ruby/3.2.0/bin/ever-living",
        "/Users/ada/.gem/ruby/3.1.0/bin/ever-living",
        "/Users/ada/.gem/ruby/3.0.0/bin/ever-living",
        "/Users/ada/.gem/ruby/2.7.0/bin/ever-living",
        "/Users/ada/.gem/ruby/2.6.0/bin/ever-living",
    ];
    assert_eq!(c, expected);
}

#[test]
fn program_candidates_without_environment() {
    let c = program_candidates_of(None, None, None);
    assert_eq!(
        c,
        vec!["/usr/local/bin/ever-living", "/opt/homebrew/bin/ever-living", "/usr/bin/ever-living"]
    );
    let c = program_candidates_of(None, Some("/"), None);
    assert_eq!(c.len(), 3);
}

#[test]
fn which_answer_is_trimmed_output() {
    assert_eq!(which_answer("  /usr/bin/ever-living\n"), Some("/usr/bin/ever-living".to_string()));
    assert_eq!(which_answer("\n"), None);
    assert_eq!(which_answer(""), None);
    assert_eq!(missing_program(), "找不到 Ever-Living sidecar。请安装 ever-living 命令。");
}

#[test]
fn sidecar_log_lines() {
    assert_eq!(found_line(3), "[Ever-Living] 发现 3 个残留 sidecar 进程，正在清理");
    assert_eq!(cleared_line(2), "[Ever-Living] 已清理 2 个残留进程");
    assert_eq!(stale_line(99), "[Ever-Living] 清理残留 PID=99");
    assert_eq!(forced_line(12), "[Ever-Living] Sidecar 强制终止 PID=12");
    assert_eq!(stopped_line(12), "[Ever-Living] Sidecar 已停止 PID=12");
    assert_eq!(started_line(555, 7070), "[Ever-Living] Sidecar 已启动 PID=555 端口=7070");
}

#[test]
fn sidecar_error_messages() {
    assert_eq!(make_dir_error("/d", "denied"), "无法创建应用数据目录 /d: denied");
    assert_eq!(read_pid_error("e"), "读取PID: e");
    assert_eq!(delete_pid_error("e"), "删除PID: e");
    assert_eq!(write_pid_error("e"), "写入PID: e");
    assert_eq!(create_log_error("/d/sidecar.log", "e"), "无法创建日志 /d/sidecar.log: e");
    assert_eq!(share_log_error("e"), "无法复制日志文件句柄: e");
    assert_eq!(
        spawn_error("not found", "/usr/bin/ever-living", 7070),
        "启动失败: not found\n命令: /usr/bin/ever-living server --port 7070"
    );
    assert_eq!(timeout_error(30, 7070), "服务在 30s 内未在端口 7070 就绪");
}
