//! The lifecycle procedures as values that a driver runs: it asks a job for
//! its action, performs it, and hands the outcome back to get the next job,
//! until the action is `Finish`.
use vstd::prelude::*;
use vstd::string::*;
use crate::lifecycle_model::{
    job_action, job_next, job_wf, lemma_next_wf, ready_url, server_args, start_action,
    start_job, start_next, start_wf, stop_action, stop_job, stop_next, stop_wf, sweep_action,
    sweep_after, sweep_job, sweep_next, sweep_wf, ActionView, FinishView, JobModel, OutcomeView,
    Signal, StartModel, StopModel, SweepModel,
};
use crate::listing::parse_pid_listing;
use crate::paths::opt_string_view;
use crate::sidecar::{
    cleared_line, create_log_error, delete_pid_error, forced_line, found_line, log_path,
    make_dir_error, pid_file_text, pid_from_file_text, pid_path, read_pid_error, share_log_error,
    spawn_error, stale_line, started_line, stopped_line, strings_view, timeout_error,
    write_pid_error, READY_TIMEOUT_SECS,
};
use crate::text::decimal_string;

verus! {

/// How a procedure ended.
#[derive(Debug, PartialEq, Eq)]
pub enum Finish {
    /// The sweep found and ended this many sidecar processes.
    Swept(usize),
    /// The service runs as process `0`, listening on port `1`.
    Started(u32, u16),
    Stopped,
    Failed(String),
}

impl View for Finish {
    type V = FinishView;

    open spec fn view(&self) -> FinishView {
        match self {
            Finish::Swept(n) => FinishView::Swept(*n as nat),
            Finish::Started(pid, port) => FinishView::Started(*pid, *port),
            Finish::Stopped => FinishView::Stopped,
            Finish::Failed(m) => FinishView::Failed(m@),
        }
    }
}

/// An action a job asks its driver to perform; the comment of each variant
/// of `ActionView` says what it means.
#[derive(Debug, PartialEq, Eq)]
pub enum Action {
    ListSidecars,
    Probe { pid: u32 },
    Send { pid: u32, signal: Signal },
    Sleep { millis: u64 },
    Log { line: String },
    ReadPidFile { path: String },
    RemovePidFile { path: String },
    WritePidFile { path: String, text: String },
    Locate,
    CreateDataDir { path: String },
    CreateLog { path: String },
    ShareLog,
    Spawn { program: String, args: Vec<String> },
    Watch,
    StartClock { secs: u64 },
    CheckClock,
    Fetch { url: String },
    Finish(Finish),
}

impl View for Action {
    type V = ActionView;

    open spec fn view(&self) -> ActionView {
        match self {
            Action::ListSidecars => ActionView::ListSidecars,
            Action::Probe { pid } => ActionView::Probe { pid: *pid },
            Action::Send { pid, signal } => ActionView::Send { pid: *pid, signal: *signal },
            Action::Sleep { millis } => ActionView::Sleep { millis: *millis },
            Action::Log { line } => ActionView::Log { line: line@ },
            Action::ReadPidFile { path } => ActionView::ReadPidFile { path: path@ },
            Action::RemovePidFile { path } => ActionView::RemovePidFile { path: path@ },
            Action::WritePidFile { path, text } => ActionView::WritePidFile {
                path: path@,
                text: text@,
            },
            Action::Locate => ActionView::Locate,
            Action::CreateDataDir { path } => ActionView::CreateDataDir { path: path@ },
            Action::CreateLog { path } => ActionView::CreateLog { path: path@ },
            Action::ShareLog => ActionView::ShareLog,
            Action::Spawn { program, args } => ActionView::Spawn {
                program: program@,
                args: strings_view(args@),
            },
            Action::Watch => ActionView::Watch,
            Action::StartClock { secs } => ActionView::StartClock { secs: *secs },
            Action::CheckClock => ActionView::CheckClock,
            Action::Fetch { url } => ActionView::Fetch { url: url@ },
            Action::Finish(f) => ActionView::Finish(f@),
        }
    }
}

/// The outcome of an action, as the driver reports it; the comment of each
/// variant of `OutcomeView` says what it means.
#[derive(Debug, PartialEq, Eq)]
pub enum Outcome {
    Done,
    Failed(String),
    Listing(Option<String>),
    Alive(bool),
    PidFile(Option<String>),
    Located(String),
    Spawned(u32),
    Expired(bool),
    Status(Option<u16>),
}

impl View for Outcome {
    type V = OutcomeView;

    open spec fn view(&self) -> OutcomeView {
        match self {
            Outcome::Done => OutcomeView::Done,
            Outcome::Failed(e) => OutcomeView::Failed(e@),
            Outcome::Listing(o) => OutcomeView::Listing(opt_string_view(*o)),
            Outcome::Alive(b) => OutcomeView::Alive(*b),
            Outcome::PidFile(o) => OutcomeView::PidFile(opt_string_view(*o)),
            Outcome::Located(b) => OutcomeView::Located(b@),
            Outcome::Spawned(p) => OutcomeView::Spawned(*p),
            Outcome::Expired(b) => OutcomeView::Expired(*b),
            Outcome::Status(s) => OutcomeView::Status(*s),
        }
    }
}

enum SweepPhase {
    List,
    Announce { pids: Vec<u32> },
    Term { pids: Vec<u32>, next: usize },
    Settle { pids: Vec<u32> },
    Check { pids: Vec<u32>, next: usize },
    Kill { pids: Vec<u32>, next: usize },
    Done { killed: usize },
}

enum StartPhase {
    Locate,
    MakeDir { bin: String },
    Sweeping { bin: String, sweep: SweepPhase },
    ReportSwept { bin: String, killed: usize },
    ReadStale { bin: String },
    ProbeStale { bin: String, pid: u32 },
    ReportStale { bin: String, pid: u32 },
    TermStale { bin: String, pid: u32 },
    WaitStale { bin: String, pid: u32 },
    RecheckStale { bin: String, pid: u32 },
    KillStale { bin: String, pid: u32 },
    RemoveStale { bin: String },
    OpenLog { bin: String },
    ShareLog { bin: String },
    Spawn { bin: String },
    SavePid { pid: u32 },
    Watch { pid: u32 },
    Clock { pid: u32 },
    Poll { pid: u32 },
    Fetch { pid: u32 },
    Pause { pid: u32 },
    Ready { pid: u32 },
    Started { pid: u32 },
    Failed { msg: String },
}

enum StopPhase {
    Read,
    Probe { pid: u32 },
    Term { pid: u32 },
    Poll { pid: u32, round: usize },
    Pause { pid: u32, round: usize },
    Confirm { pid: u32 },
    Kill { pid: u32 },
    ReportKilled { pid: u32 },
    ReportStopped { pid: u32 },
    Remove,
    Sweeping { sweep: SweepPhase },
    Stopped,
    Failed { msg: String },
}

enum JobState {
    Sweep { sweep: SweepPhase },
    Start { dir: String, port: u16, phase: StartPhase },
    Stop { dir: String, phase: StopPhase },
}

spec fn sweep_view(p: SweepPhase) -> SweepModel {
    match p {
        SweepPhase::List => SweepModel::List,
        SweepPhase::Announce { pids } => SweepModel::Announce { pids: pids@ },
        SweepPhase::Term { pids, next } => SweepModel::Term { pids: pids@, next: next as nat },
        SweepPhase::Settle { pids } => SweepModel::Settle { pids: pids@ },
        SweepPhase::Check { pids, next } => SweepModel::Check { pids: pids@, next: next as nat },
        SweepPhase::Kill { pids, next } => SweepModel::Kill { pids: pids@, next: next as nat },
        SweepPhase::Done { killed } => SweepModel::Done { killed: killed as nat },
    }
}

spec fn start_view(p: StartPhase) -> StartModel {
    match p {
        StartPhase::Locate => StartModel::Locate,
        StartPhase::MakeDir { bin } => StartModel::MakeDir { bin: bin@ },
        StartPhase::Sweeping { bin, sweep } => StartModel::Sweeping {
            bin: bin@,
            sweep: sweep_view(sweep),
        },
        StartPhase::ReportSwept { bin, killed } => StartModel::ReportSwept {
            bin: bin@,
            killed: killed as nat,
        },
        StartPhase::ReadStale { bin } => StartModel::ReadStale { bin: bin@ },
        StartPhase::ProbeStale { bin, pid } => StartModel::ProbeStale { bin: bin@, pid },
        StartPhase::ReportStale { bin, pid } => StartModel::ReportStale { bin: bin@, pid },
        StartPhase::TermStale { bin, pid } => StartModel::TermStale { bin: bin@, pid },
        StartPhase::WaitStale { bin, pid } => StartModel::WaitStale { bin: bin@, pid },
        StartPhase::RecheckStale { bin, pid } => StartModel::RecheckStale { bin: bin@, pid },
        StartPhase::KillStale { bin, pid } => StartModel::KillStale { bin: bin@, pid },
        StartPhase::RemoveStale { bin } => StartModel::RemoveStale { bin: bin@ },
        StartPhase::OpenLog { bin } => StartModel::OpenLog { bin: bin@ },
        StartPhase::ShareLog { bin } => StartModel::ShareLog { bin: bin@ },
        StartPhase::Spawn { bin } => StartModel::Spawn { bin: bin@ },
        StartPhase::SavePid { pid } => StartModel::SavePid { pid },
        StartPhase::Watch { pid } => StartModel::Watch { pid },
        StartPhase::Clock { pid } => StartModel::Clock { pid },
        StartPhase::Poll { pid } => StartModel::Poll { pid },
        StartPhase::Fetch { pid } => StartModel::Fetch { pid },
        StartPhase::Pause { pid } => StartModel::Pause { pid },
        StartPhase::Ready { pid } => StartModel::Ready { pid },
        StartPhase::Started { pid } => StartModel::Started { pid },
        StartPhase::Failed { msg } => StartModel::Failed { msg: msg@ },
    }
}

spec fn stop_view(p: StopPhase) -> StopModel {
    match p {
        StopPhase::Read => StopModel::Read,
        StopPhase::Probe { pid } => StopModel::Probe { pid },
        StopPhase::Term { pid } => StopModel::Term { pid },
        StopPhase::Poll { pid, round } => StopModel::Poll { pid, round: round as nat },
        StopPhase::Pause { pid, round } => StopModel::Pause { pid, round: round as nat },
        StopPhase::Confirm { pid } => StopModel::Confirm { pid },
        StopPhase::Kill { pid } => StopModel::Kill { pid },
        StopPhase::ReportKilled { pid } => StopModel::ReportKilled { pid },
        StopPhase::ReportStopped { pid } => StopModel::ReportStopped { pid },
        StopPhase::Remove => StopModel::Remove,
        StopPhase::Sweeping { sweep } => StopModel::Sweeping { sweep: sweep_view(sweep) },
        StopPhase::Stopped => StopModel::Stopped,
        StopPhase::Failed { msg } => StopModel::Failed { msg: msg@ },
    }
}

spec fn job_view(s: JobState) -> JobModel {
    match s {
        JobState::Sweep { sweep } => JobModel::Sweep { sweep: sweep_view(sweep) },
        JobState::Start { dir, port, phase } => JobModel::Start {
            dir: dir@,
            port,
            phase: start_view(phase),
        },
        JobState::Stop { dir, phase } => JobModel::Stop { dir: dir@, phase: stop_view(phase) },
    }
}

fn sweep_act(p: &SweepPhase) -> (a: Action)
    requires
        sweep_wf(sweep_view(*p)),
    ensures
        a@ == sweep_action(sweep_view(*p)),
{
    match p {
        SweepPhase::List => Action::ListSidecars,
        SweepPhase::Announce { pids } => Action::Log { line: found_line(pids.len()) },
        SweepPhase::Term { pids, next } => Action::Send {
            pid: pids[*next],
            signal: Signal::Terminate,
        },
        SweepPhase::Settle { .. } => Action::Sleep { millis: 2000 },
        SweepPhase::Check { pids, next } => Action::Probe { pid: pids[*next] },
        SweepPhase::Kill { pids, next } => Action::Send { pid: pids[*next], signal: Signal::Kill },
        SweepPhase::Done { killed } => Action::Finish(Finish::Swept(*killed)),
    }
}

fn sweep_after_exec(pids: Vec<u32>, next: usize) -> (p: SweepPhase)
    requires
        next < pids@.len(),
    ensures
        sweep_view(p) == sweep_after(pids@, next as nat),
{
    if next < pids.len() - 1 {
        SweepPhase::Check { pids, next: next + 1 }
    } else {
        let killed = pids.len();
        SweepPhase::Done { killed }
    }
}

fn sweep_step(p: SweepPhase, o: &Outcome) -> (r: SweepPhase)
    requires
        sweep_wf(sweep_view(p)),
    ensures
        sweep_view(r) == sweep_next(sweep_view(p), o@),
{
    match p {
        SweepPhase::List => match o {
            Outcome::Listing(None) => SweepPhase::Done { killed: 0 },
            Outcome::Listing(Some(out)) => {
                let pids = parse_pid_listing(out.as_str());
                if pids.len() == 0 {
                    SweepPhase::Done { killed: 0 }
                } else {
                    SweepPhase::Announce { pids }
                }
            },
            _ => SweepPhase::List,
        },
        SweepPhase::Announce { pids } => match o {
            Outcome::Done => SweepPhase::Term { pids, next: 0 },
            _ => SweepPhase::Announce { pids },
        },
        SweepPhase::Term { pids, next } => match o {
            Outcome::Done => if next < pids.len() - 1 {
                SweepPhase::Term { pids, next: next + 1 }
            } else {
                SweepPhase::Settle { pids }
            },
            _ => SweepPhase::Term { pids, next },
        },
        SweepPhase::Settle { pids } => match o {
            Outcome::Done => SweepPhase::Check { pids, next: 0 },
            _ => SweepPhase::Settle { pids },
        },
        SweepPhase::Check { pids, next } => match o {
            Outcome::Alive(true) => SweepPhase::Kill { pids, next },
            Outcome::Alive(false) => sweep_after_exec(pids, next),
            _ => SweepPhase::Check { pids, next },
        },
        SweepPhase::Kill { pids, next } => match o {
            Outcome::Done => sweep_after_exec(pids, next),
            _ => SweepPhase::Kill { pids, next },
        },
        SweepPhase::Done { killed } => SweepPhase::Done { killed },
    }
}

fn server_args_exec(port: u16) -> (v: Vec<String>)
    ensures
        strings_view(v@) == server_args(port),
{
    let mut v: Vec<String> = Vec::new();
    v.push("server".to_owned());
    v.push("--port".to_owned());
    v.push(decimal_string(port as u64));
    v.push("--host".to_owned());
    v.push("127.0.0.1".to_owned());
    assert(strings_view(v@) =~= server_args(port));
    v
}

fn ready_url_exec(port: u16) -> (u: String)
    ensures
        u@ == ready_url(port),
{
    let mut u = "http://127.0.0.1:".to_owned();
    let digits = decimal_string(port as u64);
    u.append(digits.as_str());
    u.append("/");
    u
}

fn start_act(dir: &String, port: u16, p: &StartPhase) -> (a: Action)
    requires
        start_wf(start_view(*p)),
    ensures
        a@ == start_action(dir@, port, start_view(*p)),
{
    match p {
        StartPhase::Locate => Action::Locate,
        StartPhase::MakeDir { .. } => Action::CreateDataDir { path: dir.clone() },
        StartPhase::Sweeping { sweep, .. } => sweep_act(sweep),
        StartPhase::ReportSwept { killed, .. } => Action::Log { line: cleared_line(*killed) },
        StartPhase::ReadStale { .. } => Action::ReadPidFile { path: pid_path(dir.as_str()) },
        StartPhase::ProbeStale { pid, .. } => Action::Probe { pid: *pid },
        StartPhase::ReportStale { pid, .. } => Action::Log { line: stale_line(*pid) },
        StartPhase::TermStale { pid, .. } => Action::Send {
            pid: *pid,
            signal: Signal::Terminate,
        },
        StartPhase::WaitStale { .. } => Action::Sleep { millis: 1000 },
        StartPhase::RecheckStale { pid, .. } => Action::Probe { pid: *pid },
        StartPhase::KillStale { pid, .. } => Action::Send { pid: *pid, signal: Signal::Kill },
        StartPhase::RemoveStale { .. } => Action::RemovePidFile { path: pid_path(dir.as_str()) },
        StartPhase::OpenLog { .. } => Action::CreateLog { path: log_path(dir.as_str()) },
        StartPhase::ShareLog { .. } => Action::ShareLog,
        StartPhase::Spawn { bin } => Action::Spawn {
            program: bin.clone(),
            args: server_args_exec(port),
        },
        StartPhase::SavePid { pid } => Action::WritePidFile {
            path: pid_path(dir.as_str()),
            text: pid_file_text(*pid),
        },
        StartPhase::Watch { .. } => Action::Watch,
        StartPhase::Clock { .. } => Action::StartClock { secs: READY_TIMEOUT_SECS },
        StartPhase::Poll { .. } => Action::CheckClock,
        StartPhase::Fetch { .. } => Action::Fetch { url: ready_url_exec(port) },
        StartPhase::Pause { .. } => Action::Sleep { millis: 500 },
        StartPhase::Ready { pid } => Action::Log { line: started_line(*pid, port) },
        StartPhase::Started { pid } => Action::Finish(Finish::Started(*pid, port)),
        StartPhase::Failed { msg } => Action::Finish(Finish::Failed(msg.clone())),
    }
}

fn start_step(dir: &String, port: u16, p: StartPhase, o: &Outcome) -> (r: StartPhase)
    requires
        start_wf(start_view(p)),
    ensures
        start_view(r) == start_next(dir@, port, start_view(p), o@),
{
    match p {
        StartPhase::Locate => match o {
            Outcome::Located(bin) => StartPhase::MakeDir { bin: bin.clone() },
            Outcome::Failed(e) => StartPhase::Failed { msg: e.clone() },
            _ => StartPhase::Locate,
        },
        StartPhase::MakeDir { bin } => match o {
            Outcome::Done => StartPhase::Sweeping { bin, sweep: SweepPhase::List },
            Outcome::Failed(e) => StartPhase::Failed {
                msg: make_dir_error(dir.as_str(), e.as_str()),
            },
            _ => StartPhase::MakeDir { bin },
        },
        StartPhase::Sweeping { bin, sweep } => {
            let s = sweep_step(sweep, o);
            match s {
                SweepPhase::Done { killed } => if killed > 0 {
                    StartPhase::ReportSwept { bin, killed }
                } else {
                    StartPhase::ReadStale { bin }
                },
                _ => StartPhase::Sweeping { bin, sweep: s },
            }
        },
        StartPhase::ReportSwept { bin, killed } => match o {
            Outcome::Done => StartPhase::ReadStale { bin },
            _ => StartPhase::ReportSwept { bin, killed },
        },
        StartPhase::ReadStale { bin } => match o {
            Outcome::PidFile(None) => StartPhase::OpenLog { bin },
            Outcome::PidFile(Some(text)) => match pid_from_file_text(text.as_str()) {
                Some(pid) => StartPhase::ProbeStale { bin, pid },
                None => StartPhase::OpenLog { bin },
            },
            Outcome::Failed(e) => StartPhase::Failed { msg: read_pid_error(e.as_str()) },
            _ => StartPhase::ReadStale { bin },
        },
        StartPhase::ProbeStale { bin, pid } => match o {
            Outcome::Alive(true) => StartPhase::ReportStale { bin, pid },
            Outcome::Alive(false) => StartPhase::RemoveStale { bin },
            _ => StartPhase::ProbeStale { bin, pid },
        },
        StartPhase::ReportStale { bin, pid } => match o {
            Outcome::Done => StartPhase::TermStale { bin, pid },
            _ => StartPhase::ReportStale { bin, pid },
        },
        StartPhase::TermStale { bin, pid } => match o {
            Outcome::Done => StartPhase::WaitStale { bin, pid },
            _ => StartPhase::TermStale { bin, pid },
        },
        StartPhase::WaitStale { bin, pid } => match o {
            Outcome::Done => StartPhase::RecheckStale { bin, pid },
            _ => StartPhase::WaitStale { bin, pid },
        },
        StartPhase::RecheckStale { bin, pid } => match o {
            Outcome::Alive(true) => StartPhase::KillStale { bin, pid },
            Outcome::Alive(false) => StartPhase::RemoveStale { bin },
            _ => StartPhase::RecheckStale { bin, pid },
        },
        StartPhase::KillStale { bin, pid } => match o {
            Outcome::Done => StartPhase::RemoveStale { bin },
            _ => StartPhase::KillStale { bin, pid },
        },
        StartPhase::RemoveStale { bin } => match o {
            Outcome::Done => StartPhase::OpenLog { bin },
            Outcome::Failed(e) => StartPhase::Failed { msg: delete_pid_error(e.as_str()) },
            _ => StartPhase::RemoveStale { bin },
        },
        StartPhase::OpenLog { bin } => match o {
            Outcome::Done => StartPhase::ShareLog { bin },
            Outcome::Failed(e) => {
                let log = log_path(dir.as_str());
                StartPhase::Failed { msg: create_log_error(log.as_str(), e.as_str()) }
            },
            _ => StartPhase::OpenLog { bin },
        },
        StartPhase::ShareLog { bin } => match o {
            Outcome::Done => StartPhase::Spawn { bin },
            Outcome::Failed(e) => StartPhase::Failed { msg: share_log_error(e.as_str()) },
            _ => StartPhase::ShareLog { bin },
        },
        StartPhase::Spawn { bin } => match o {
            Outcome::Spawned(pid) => StartPhase::SavePid { pid: *pid },
            Outcome::Failed(e) => StartPhase::Failed {
                msg: spawn_error(e.as_str(), bin.as_str(), port),
            },
            _ => StartPhase::Spawn { bin },
        },
        StartPhase::SavePid { pid } => match o {
            Outcome::Done => StartPhase::Watch { pid },
            Outcome::Failed(e) => StartPhase::Failed { msg: write_pid_error(e.as_str()) },
            _ => StartPhase::SavePid { pid },
        },
        StartPhase::Watch { pid } => match o {
            Outcome::Done => StartPhase::Clock { pid },
            _ => StartPhase::Watch { pid },
        },
        StartPhase::Clock { pid } => match o {
            Outcome::Done => StartPhase::Poll { pid },
            _ => StartPhase::Clock { pid },
        },
        StartPhase::Poll { pid } => match o {
            Outcome::Expired(true) => StartPhase::Failed {
                msg: timeout_error(READY_TIMEOUT_SECS, port),
            },
            Outcome::Expired(false) => StartPhase::Fetch { pid },
            _ => StartPhase::Poll { pid },
        },
        StartPhase::Fetch { pid } => match o {
            Outcome::Status(Some(status)) => if 200 <= *status && *status <= 299 {
                StartPhase::Ready { pid }
            } else {
                StartPhase::Pause { pid }
            },
            Outcome::Status(None) => StartPhase::Pause { pid },
            _ => StartPhase::Fetch { pid },
        },
        StartPhase::Pause { pid } => match o {
            Outcome::Done => StartPhase::Poll { pid },
            _ => StartPhase::Pause { pid },
        },
        StartPhase::Ready { pid } => match o {
            Outcome::Done => StartPhase::Started { pid },
            _ => StartPhase::Ready { pid },
        },
        StartPhase::Started { pid } => StartPhase::Started { pid },
        StartPhase::Failed { msg } => StartPhase::Failed { msg },
    }
}

fn stop_act(dir: &String, p: &StopPhase) -> (a: Action)
    requires
        stop_wf(stop_view(*p)),
    ensures
        a@ == stop_action(dir@, stop_view(*p)),
{
    match p {
        StopPhase::Read => Action::ReadPidFile { path: pid_path(dir.as_str()) },
        StopPhase::Probe { pid } => Action::Probe { pid: *pid },
        StopPhase::Term { pid } => Action::Send { pid: *pid, signal: Signal::Terminate },
        StopPhase::Poll { pid, .. } => Action::Probe { pid: *pid },
        StopPhase::Pause { .. } => Action::Sleep { millis: 500 },
        StopPhase::Confirm { pid } => Action::Probe { pid: *pid },
        StopPhase::Kill { pid } => Action::Send { pid: *pid, signal: Signal::Kill },
        StopPhase::ReportKilled { pid } => Action::Log { line: forced_line(*pid) },
        StopPhase::ReportStopped { pid } => Action::Log { line: stopped_line(*pid) },
        StopPhase::Remove => Action::RemovePidFile { path: pid_path(dir.as_str()) },
        StopPhase::Sweeping { sweep } => sweep_act(sweep),
        StopPhase::Stopped => Action::Finish(Finish::Stopped),
        StopPhase::Failed { msg } => Action::Finish(Finish::Failed(msg.clone())),
    }
}

fn stop_step(p: StopPhase, o: &Outcome) -> (r: StopPhase)
    requires
        stop_wf(stop_view(p)),
    ensures
        stop_view(r) == stop_next(stop_view(p), o@),
{
    match p {
        StopPhase::Read => match o {
            Outcome::PidFile(None) => StopPhase::Sweeping { sweep: SweepPhase::List },
            Outcome::PidFile(Some(text)) => match pid_from_file_text(text.as_str()) {
                Some(pid) => StopPhase::Probe { pid },
                None => StopPhase::Sweeping { sweep: SweepPhase::List },
            },
            Outcome::Failed(e) => StopPhase::Failed { msg: read_pid_error(e.as_str()) },
            _ => StopPhase::Read,
        },
        StopPhase::Probe { pid } => match o {
            Outcome::Alive(true) => StopPhase::Term { pid },
            Outcome::Alive(false) => StopPhase::Remove,
            _ => StopPhase::Probe { pid },
        },
        StopPhase::Term { pid } => match o {
            Outcome::Done => StopPhase::Poll { pid, round: 0 },
            _ => StopPhase::Term { pid },
        },
        StopPhase::Poll { pid, round } => match o {
            Outcome::Alive(true) => StopPhase::Pause { pid, round },
            Outcome::Alive(false) => StopPhase::Confirm { pid },
            _ => StopPhase::Poll { pid, round },
        },
        StopPhase::Pause { pid, round } => match o {
            Outcome::Done => if round + 1 < 6 {
                StopPhase::Poll { pid, round: round + 1 }
            } else {
                StopPhase::Confirm { pid }
            },
            _ => StopPhase::Pause { pid, round },
        },
        StopPhase::Confirm { pid } => match o {
            Outcome::Alive(true) => StopPhase::Kill { pid },
            Outcome::Alive(false) => StopPhase::ReportStopped { pid },
            _ => StopPhase::Confirm { pid },
        },
        StopPhase::Kill { pid } => match o {
            Outcome::Done => StopPhase::ReportKilled { pid },
            _ => StopPhase::Kill { pid },
        },
        StopPhase::ReportKilled { pid } => match o {
            Outcome::Done => StopPhase::Remove,
            _ => StopPhase::ReportKilled { pid },
        },
        StopPhase::ReportStopped { pid } => match o {
            Outcome::Done => StopPhase::Remove,
            _ => StopPhase::ReportStopped { pid },
        },
        StopPhase::Remove => match o {
            Outcome::Done => StopPhase::Sweeping { sweep: SweepPhase::List },
            Outcome::Failed(e) => StopPhase::Failed { msg: delete_pid_error(e.as_str()) },
            _ => StopPhase::Remove,
        },
        StopPhase::Sweeping { sweep } => {
            let s = sweep_step(sweep, o);
            match s {
                SweepPhase::Done { .. } => StopPhase::Stopped,
                _ => StopPhase::Sweeping { sweep: s },
            }
        },
        StopPhase::Stopped => StopPhase::Stopped,
        StopPhase::Failed { msg } => StopPhase::Failed { msg },
    }
}

/// A lifecycle procedure in progress.
pub struct Job {
    state: JobState,
}

impl View for Job {
    type V = JobModel;

    closed spec fn view(&self) -> JobModel {
        job_view(self.state)
    }
}

impl Job {
    #[verifier::type_invariant]
    spec fn well_formed(self) -> bool {
        job_wf(job_view(self.state))
    }

    /// The procedure that ends every running sidecar server.
    pub fn kill_all_sidecars() -> (j: Job)
        ensures
            j@ == sweep_job(),
    {
        Job { state: JobState::Sweep { sweep: SweepPhase::List } }
    }

    /// The procedure that starts the service on `port`, with `dir` the
    /// application's data directory.
    pub fn start(dir: &str, port: u16) -> (j: Job)
        ensures
            j@ == start_job(dir@, port),
    {
        Job { state: JobState::Start { dir: dir.to_owned(), port, phase: StartPhase::Locate } }
    }

    /// The procedure that stops the service, with `dir` the application's
    /// data directory.
    pub fn stop(dir: &str) -> (j: Job)
        ensures
            j@ == stop_job(dir@),
    {
        Job { state: JobState::Stop { dir: dir.to_owned(), phase: StopPhase::Read } }
    }

    /// The action this job waits on.
    pub fn action(&self) -> (a: Action)
        ensures
            a@ == job_action(self@),
    {
        proof {
            use_type_invariant(self);
        }
        match &self.state {
            JobState::Sweep { sweep } => sweep_act(sweep),
            JobState::Start { dir, port, phase } => start_act(dir, *port, phase),
            JobState::Stop { dir, phase } => stop_act(dir, phase),
        }
    }

    /// This job after its action had outcome `o`.
    pub fn advance(self, o: &Outcome) -> (j: Job)
        ensures
            j@ == job_next(self@, o@),
    {
        proof {
            use_type_invariant(&self);
            lemma_next_wf(self@, o@);
        }
        let state = match self.state {
            JobState::Sweep { sweep } => JobState::Sweep { sweep: sweep_step(sweep, o) },
            JobState::Start { dir, port, phase } => {
                let phase = start_step(&dir, port, phase, o);
                JobState::Start { dir, port, phase }
            },
            JobState::Stop { dir, phase } => JobState::Stop { dir, phase: stop_step(phase, o) },
        };
        Job { state }
    }
}

} // verus!
