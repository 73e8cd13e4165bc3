//! The mathematical model of the service's lifecycle procedures: sweeping
//! away every running sidecar, starting the service, and stopping it. Each
//! procedure is a state machine: its state names the one action it waits on,
//! and the outcome of that action yields the next state.
use vstd::prelude::*;
use crate::listing::listed_pids;
use crate::paths::joined;
use crate::sidecar::{
    READY_TIMEOUT_SECS,
    cleared_msg, create_log_err, delete_pid_err, forced_msg, found_msg, make_dir_err,
    read_pid_err, share_log_err, spawn_err, stale_msg, started_msg, stopped_msg, timeout_err,
    write_pid_err,
};
use crate::text::{decimal, parse_u32, trim};

verus! {

/// A signal sent to a process.
#[derive(Debug, Clone, Copy, PartialEq, Eq, Structural)]
pub enum Signal {
    /// `SIGTERM`: asks the process to end.
    Terminate,
    /// `SIGKILL`: ends the process.
    Kill,
}

/// How a procedure ends.
pub enum FinishView {
    Swept(nat),
    Started(u32, u16),
    Stopped,
    Failed(Seq<char>),
}

/// An action that a procedure asks for.
pub enum ActionView {
    /// List the running sidecar servers (`pgrep -f "ever-living server"`).
    ListSidecars,
    /// Tell whether process `pid` is alive (signal 0).
    Probe { pid: u32 },
    Send { pid: u32, signal: Signal },
    Sleep { millis: u64 },
    /// Write a line to the standard error stream.
    Log { line: Seq<char> },
    /// Read the pid file at `path`, if there is one.
    ReadPidFile { path: Seq<char> },
    /// Remove the pid file at `path`, if there is one.
    RemovePidFile { path: Seq<char> },
    WritePidFile { path: Seq<char>, text: Seq<char> },
    /// Look for the sidecar program.
    Locate,
    /// Create the directory `path` and its parents.
    CreateDataDir { path: Seq<char> },
    /// Create (or truncate) the log file `path`.
    CreateLog { path: Seq<char> },
    /// Obtain a second handle to the log file, for the standard error stream.
    ShareLog,
    /// Start `program` with `args`, its output going to the log file.
    Spawn { program: Seq<char>, args: Seq<Seq<char>> },
    /// Wait on the spawned process in the background.
    Watch,
    /// Set a deadline `secs` seconds from now.
    StartClock { secs: u64 },
    /// Tell whether the deadline has passed.
    CheckClock,
    /// Request `url` over HTTP.
    Fetch { url: Seq<char> },
    Finish(FinishView),
}

/// The outcome of an action.
pub enum OutcomeView {
    Done,
    Failed(Seq<char>),
    /// The listing's output, or none when the listing could not be run.
    Listing(Option<Seq<char>>),
    Alive(bool),
    /// The pid file's text, or none when there is no pid file.
    PidFile(Option<Seq<char>>),
    Located(Seq<char>),
    Spawned(u32),
    Expired(bool),
    /// The response's status code, or none when the request failed.
    Status(Option<u16>),
}

/// Sweeping away every running sidecar process.
pub enum SweepModel {
    List,
    Announce { pids: Seq<u32> },
    Term { pids: Seq<u32>, next: nat },
    Settle { pids: Seq<u32> },
    Check { pids: Seq<u32>, next: nat },
    Kill { pids: Seq<u32>, next: nat },
    Done { killed: nat },
}

/// Starting the service.
pub enum StartModel {
    Locate,
    MakeDir { bin: Seq<char> },
    Sweeping { bin: Seq<char>, sweep: SweepModel },
    ReportSwept { bin: Seq<char>, killed: nat },
    ReadStale { bin: Seq<char> },
    ProbeStale { bin: Seq<char>, pid: u32 },
    ReportStale { bin: Seq<char>, pid: u32 },
    TermStale { bin: Seq<char>, pid: u32 },
    WaitStale { bin: Seq<char>, pid: u32 },
    RecheckStale { bin: Seq<char>, pid: u32 },
    KillStale { bin: Seq<char>, pid: u32 },
    RemoveStale { bin: Seq<char> },
    OpenLog { bin: Seq<char> },
    ShareLog { bin: Seq<char> },
    Spawn { bin: Seq<char> },
    SavePid { pid: u32 },
    Watch { pid: u32 },
    Clock { pid: u32 },
    Poll { pid: u32 },
    Fetch { pid: u32 },
    Pause { pid: u32 },
    Ready { pid: u32 },
    Started { pid: u32 },
    Failed { msg: Seq<char> },
}

/// Stopping the service.
pub enum StopModel {
    Read,
    Probe { pid: u32 },
    Term { pid: u32 },
    Poll { pid: u32, round: nat },
    Pause { pid: u32, round: nat },
    Confirm { pid: u32 },
    Kill { pid: u32 },
    ReportKilled { pid: u32 },
    ReportStopped { pid: u32 },
    Remove,
    Sweeping { sweep: SweepModel },
    Stopped,
    Failed { msg: Seq<char> },
}

/// A procedure in progress; `dir` is the application's data directory and
/// `port` the port the service is started on.
pub enum JobModel {
    Sweep { sweep: SweepModel },
    Start { dir: Seq<char>, port: u16, phase: StartModel },
    Stop { dir: Seq<char>, phase: StopModel },
}

/// Times the stopped process is asked about before it is killed.
pub open spec fn stop_rounds() -> nat {
    6
}

pub open spec fn server_args(port: u16) -> Seq<Seq<char>> {
    seq!["server"@, "--port"@, decimal(port as nat), "--host"@, "127.0.0.1"@]
}

pub open spec fn ready_url(port: u16) -> Seq<char> {
    "http://127.0.0.1:"@ + decimal(port as nat) + "/"@
}

pub open spec fn spec_pid_path(dir: Seq<char>) -> Seq<char> {
    joined(dir, "sidecar.pid"@)
}

pub open spec fn spec_log_path(dir: Seq<char>) -> Seq<char> {
    joined(dir, "sidecar.log"@)
}

pub open spec fn is_success(status: u16) -> bool {
    200 <= status <= 299
}

// ---------------------------------------------------------------- sweep

pub open spec fn sweep_wf(m: SweepModel) -> bool {
    match m {
        SweepModel::Announce { pids } => pids.len() > 0,
        SweepModel::Term { pids, next } => next < pids.len(),
        SweepModel::Settle { pids } => pids.len() > 0,
        SweepModel::Check { pids, next } => next < pids.len(),
        SweepModel::Kill { pids, next } => next < pids.len(),
        _ => true,
    }
}

pub open spec fn sweep_action(m: SweepModel) -> ActionView {
    match m {
        SweepModel::List => ActionView::ListSidecars,
        SweepModel::Announce { pids } => ActionView::Log { line: found_msg(pids.len()) },
        SweepModel::Term { pids, next } => ActionView::Send {
            pid: pids[next as int],
            signal: Signal::Terminate,
        },
        SweepModel::Settle { .. } => ActionView::Sleep { millis: 2000 },
        SweepModel::Check { pids, next } => ActionView::Probe { pid: pids[next as int] },
        SweepModel::Kill { pids, next } => ActionView::Send {
            pid: pids[next as int],
            signal: Signal::Kill,
        },
        SweepModel::Done { killed } => ActionView::Finish(FinishView::Swept(killed)),
    }
}

/// After the process at `next` has been dealt with: the next one is asked
/// about, or the sweep is done, every listed process counted.
pub open spec fn sweep_after(pids: Seq<u32>, next: nat) -> SweepModel {
    if next + 1 < pids.len() {
        SweepModel::Check { pids, next: next + 1 }
    } else {
        SweepModel::Done { killed: pids.len() }
    }
}

pub open spec fn sweep_next(m: SweepModel, o: OutcomeView) -> SweepModel {
    match m {
        SweepModel::List => match o {
            OutcomeView::Listing(None) => SweepModel::Done { killed: 0 },
            OutcomeView::Listing(Some(out)) => {
                let pids = listed_pids(out);
                if pids.len() == 0 {
                    SweepModel::Done { killed: 0 }
                } else {
                    SweepModel::Announce { pids }
                }
            },
            _ => m,
        },
        SweepModel::Announce { pids } => match o {
            OutcomeView::Done => SweepModel::Term { pids, next: 0 },
            _ => m,
        },
        SweepModel::Term { pids, next } => match o {
            OutcomeView::Done => if next + 1 < pids.len() {
                SweepModel::Term { pids, next: next + 1 }
            } else {
                SweepModel::Settle { pids }
            },
            _ => m,
        },
        SweepModel::Settle { pids } => match o {
            OutcomeView::Done => SweepModel::Check { pids, next: 0 },
            _ => m,
        },
        SweepModel::Check { pids, next } => match o {
            OutcomeView::Alive(true) => SweepModel::Kill { pids, next },
            OutcomeView::Alive(false) => sweep_after(pids, next),
            _ => m,
        },
        SweepModel::Kill { pids, next } => match o {
            OutcomeView::Done => sweep_after(pids, next),
            _ => m,
        },
        SweepModel::Done { .. } => m,
    }
}

// ---------------------------------------------------------------- start

pub open spec fn start_wf(m: StartModel) -> bool {
    match m {
        StartModel::Sweeping { sweep, .. } => sweep_wf(sweep) && !(sweep is Done),
        _ => true,
    }
}

pub open spec fn start_action(dir: Seq<char>, port: u16, m: StartModel) -> ActionView {
    match m {
        StartModel::Locate => ActionView::Locate,
        StartModel::MakeDir { .. } => ActionView::CreateDataDir { path: dir },
        StartModel::Sweeping { sweep, .. } => sweep_action(sweep),
        StartModel::ReportSwept { killed, .. } => ActionView::Log { line: cleared_msg(killed) },
        StartModel::ReadStale { .. } => ActionView::ReadPidFile { path: spec_pid_path(dir) },
        StartModel::ProbeStale { pid, .. } => ActionView::Probe { pid },
        StartModel::ReportStale { pid, .. } => ActionView::Log { line: stale_msg(pid) },
        StartModel::TermStale { pid, .. } => ActionView::Send { pid, signal: Signal::Terminate },
        StartModel::WaitStale { .. } => ActionView::Sleep { millis: 1000 },
        StartModel::RecheckStale { pid, .. } => ActionView::Probe { pid },
        StartModel::KillStale { pid, .. } => ActionView::Send { pid, signal: Signal::Kill },
        StartModel::RemoveStale { .. } => ActionView::RemovePidFile { path: spec_pid_path(dir) },
        StartModel::OpenLog { .. } => ActionView::CreateLog { path: spec_log_path(dir) },
        StartModel::ShareLog { .. } => ActionView::ShareLog,
        StartModel::Spawn { bin } => ActionView::Spawn { program: bin, args: server_args(port) },
        StartModel::SavePid { pid } => ActionView::WritePidFile {
            path: spec_pid_path(dir),
            text: decimal(pid as nat),
        },
        StartModel::Watch { .. } => ActionView::Watch,
        StartModel::Clock { .. } => ActionView::StartClock { secs: READY_TIMEOUT_SECS },
        StartModel::Poll { .. } => ActionView::CheckClock,
        StartModel::Fetch { .. } => ActionView::Fetch { url: ready_url(port) },
        StartModel::Pause { .. } => ActionView::Sleep { millis: 500 },
        StartModel::Ready { pid } => ActionView::Log { line: started_msg(pid, port) },
        StartModel::Started { pid } => ActionView::Finish(FinishView::Started(pid, port)),
        StartModel::Failed { msg } => ActionView::Finish(FinishView::Failed(msg)),
    }
}

pub open spec fn start_next(dir: Seq<char>, port: u16, m: StartModel, o: OutcomeView) -> StartModel {
    match m {
        StartModel::Locate => match o {
            OutcomeView::Located(bin) => StartModel::MakeDir { bin },
            OutcomeView::Failed(e) => StartModel::Failed { msg: e },
            _ => m,
        },
        StartModel::MakeDir { bin } => match o {
            OutcomeView::Done => StartModel::Sweeping { bin, sweep: SweepModel::List },
            OutcomeView::Failed(e) => StartModel::Failed { msg: make_dir_err(dir, e) },
            _ => m,
        },
        StartModel::Sweeping { bin, sweep } => {
            let s = sweep_next(sweep, o);
            match s {
                SweepModel::Done { killed } => if killed > 0 {
                    StartModel::ReportSwept { bin, killed }
                } else {
                    StartModel::ReadStale { bin }
                },
                _ => StartModel::Sweeping { bin, sweep: s },
            }
        },
        StartModel::ReportSwept { bin, .. } => match o {
            OutcomeView::Done => StartModel::ReadStale { bin },
            _ => m,
        },
        StartModel::ReadStale { bin } => match o {
            OutcomeView::PidFile(None) => StartModel::OpenLog { bin },
            OutcomeView::PidFile(Some(text)) => match parse_u32(trim(text)) {
                Some(pid) => StartModel::ProbeStale { bin, pid },
                None => StartModel::OpenLog { bin },
            },
            OutcomeView::Failed(e) => StartModel::Failed { msg: read_pid_err(e) },
            _ => m,
        },
        StartModel::ProbeStale { bin, pid } => match o {
            OutcomeView::Alive(true) => StartModel::ReportStale { bin, pid },
            OutcomeView::Alive(false) => StartModel::RemoveStale { bin },
            _ => m,
        },
        StartModel::ReportStale { bin, pid } => match o {
            OutcomeView::Done => StartModel::TermStale { bin, pid },
            _ => m,
        },
        StartModel::TermStale { bin, pid } => match o {
            OutcomeView::Done => StartModel::WaitStale { bin, pid },
            _ => m,
        },
        StartModel::WaitStale { bin, pid } => match o {
            OutcomeView::Done => StartModel::RecheckStale { bin, pid },
            _ => m,
        },
        StartModel::RecheckStale { bin, pid } => match o {
            OutcomeView::Alive(true) => StartModel::KillStale { bin, pid },
            OutcomeView::Alive(false) => StartModel::RemoveStale { bin },
            _ => m,
        },
        StartModel::KillStale { bin, .. } => match o {
            OutcomeView::Done => StartModel::RemoveStale { bin },
            _ => m,
        },
        StartModel::RemoveStale { bin } => match o {
            OutcomeView::Done => StartModel::OpenLog { bin },
            OutcomeView::Failed(e) => StartModel::Failed { msg: delete_pid_err(e) },
            _ => m,
        },
        StartModel::OpenLog { bin } => match o {
            OutcomeView::Done => StartModel::ShareLog { bin },
            OutcomeView::Failed(e) => StartModel::Failed {
                msg: create_log_err(spec_log_path(dir), e),
            },
            _ => m,
        },
        StartModel::ShareLog { bin } => match o {
            OutcomeView::Done => StartModel::Spawn { bin },
            OutcomeView::Failed(e) => StartModel::Failed { msg: share_log_err(e) },
            _ => m,
        },
        StartModel::Spawn { bin } => match o {
            OutcomeView::Spawned(pid) => StartModel::SavePid { pid },
            OutcomeView::Failed(e) => StartModel::Failed { msg: spawn_err(e, bin, port) },
            _ => m,
        },
        StartModel::SavePid { pid } => match o {
            OutcomeView::Done => StartModel::Watch { pid },
            OutcomeView::Failed(e) => StartModel::Failed { msg: write_pid_err(e) },
            _ => m,
        },
        StartModel::Watch { pid } => match o {
            OutcomeView::Done => StartModel::Clock { pid },
            _ => m,
        },
        StartModel::Clock { pid } => match o {
            OutcomeView::Done => StartModel::Poll { pid },
            _ => m,
        },
        StartModel::Poll { pid } => match o {
            OutcomeView::Expired(true) => StartModel::Failed { msg: timeout_err(READY_TIMEOUT_SECS, port) },
            OutcomeView::Expired(false) => StartModel::Fetch { pid },
            _ => m,
        },
        StartModel::Fetch { pid } => match o {
            OutcomeView::Status(Some(status)) => if is_success(status) {
                StartModel::Ready { pid }
            } else {
                StartModel::Pause { pid }
            },
            OutcomeView::Status(None) => StartModel::Pause { pid },
            _ => m,
        },
        StartModel::Pause { pid } => match o {
            OutcomeView::Done => StartModel::Poll { pid },
            _ => m,
        },
        StartModel::Ready { pid } => match o {
            OutcomeView::Done => StartModel::Started { pid },
            _ => m,
        },
        StartModel::Started { .. } => m,
        StartModel::Failed { .. } => m,
    }
}

// ---------------------------------------------------------------- stop

pub open spec fn stop_wf(m: StopModel) -> bool {
    match m {
        StopModel::Poll { round, .. } => round < stop_rounds(),
        StopModel::Pause { round, .. } => round < stop_rounds(),
        StopModel::Sweeping { sweep } => sweep_wf(sweep) && !(sweep is Done),
        _ => true,
    }
}

pub open spec fn stop_action(dir: Seq<char>, m: StopModel) -> ActionView {
    match m {
        StopModel::Read => ActionView::ReadPidFile { path: spec_pid_path(dir) },
        StopModel::Probe { pid } => ActionView::Probe { pid },
        StopModel::Term { pid } => ActionView::Send { pid, signal: Signal::Terminate },
        StopModel::Poll { pid, .. } => ActionView::Probe { pid },
        StopModel::Pause { .. } => ActionView::Sleep { millis: 500 },
        StopModel::Confirm { pid } => ActionView::Probe { pid },
        StopModel::Kill { pid } => ActionView::Send { pid, signal: Signal::Kill },
        StopModel::ReportKilled { pid } => ActionView::Log { line: forced_msg(pid) },
        StopModel::ReportStopped { pid } => ActionView::Log { line: stopped_msg(pid) },
        StopModel::Remove => ActionView::RemovePidFile { path: spec_pid_path(dir) },
        StopModel::Sweeping { sweep } => sweep_action(sweep),
        StopModel::Stopped => ActionView::Finish(FinishView::Stopped),
        StopModel::Failed { msg } => ActionView::Finish(FinishView::Failed(msg)),
    }
}

pub open spec fn stop_next(m: StopModel, o: OutcomeView) -> StopModel {
    match m {
        StopModel::Read => match o {
            OutcomeView::PidFile(None) => StopModel::Sweeping { sweep: SweepModel::List },
            OutcomeView::PidFile(Some(text)) => match parse_u32(trim(text)) {
                Some(pid) => StopModel::Probe { pid },
                None => StopModel::Sweeping { sweep: SweepModel::List },
            },
            OutcomeView::Failed(e) => StopModel::Failed { msg: read_pid_err(e) },
            _ => m,
        },
        StopModel::Probe { pid } => match o {
            OutcomeView::Alive(true) => StopModel::Term { pid },
            OutcomeView::Alive(false) => StopModel::Remove,
            _ => m,
        },
        StopModel::Term { pid } => match o {
            OutcomeView::Done => StopModel::Poll { pid, round: 0 },
            _ => m,
        },
        StopModel::Poll { pid, round } => match o {
            OutcomeView::Alive(true) => StopModel::Pause { pid, round },
            OutcomeView::Alive(false) => StopModel::Confirm { pid },
            _ => m,
        },
        StopModel::Pause { pid, round } => match o {
            OutcomeView::Done => if round + 1 < stop_rounds() {
                StopModel::Poll { pid, round: round + 1 }
            } else {
                StopModel::Confirm { pid }
            },
            _ => m,
        },
        StopModel::Confirm { pid } => match o {
            OutcomeView::Alive(true) => StopModel::Kill { pid },
            OutcomeView::Alive(false) => StopModel::ReportStopped { pid },
            _ => m,
        },
        StopModel::Kill { pid } => match o {
            OutcomeView::Done => StopModel::ReportKilled { pid },
            _ => m,
        },
        StopModel::ReportKilled { .. } => match o {
            OutcomeView::Done => StopModel::Remove,
            _ => m,
        },
        StopModel::ReportStopped { .. } => match o {
            OutcomeView::Done => StopModel::Remove,
            _ => m,
        },
        StopModel::Remove => match o {
            OutcomeView::Done => StopModel::Sweeping { sweep: SweepModel::List },
            OutcomeView::Failed(e) => StopModel::Failed { msg: delete_pid_err(e) },
            _ => m,
        },
        StopModel::Sweeping { sweep } => {
            let s = sweep_next(sweep, o);
            if s is Done {
                StopModel::Stopped
            } else {
                StopModel::Sweeping { sweep: s }
            }
        },
        StopModel::Stopped => m,
        StopModel::Failed { .. } => m,
    }
}

// ---------------------------------------------------------------- jobs

pub open spec fn job_wf(j: JobModel) -> bool {
    match j {
        JobModel::Sweep { sweep } => sweep_wf(sweep),
        JobModel::Start { phase, .. } => start_wf(phase),
        JobModel::Stop { phase, .. } => stop_wf(phase),
    }
}

/// The action that job `j` waits on.
pub open spec fn job_action(j: JobModel) -> ActionView {
    match j {
        JobModel::Sweep { sweep } => sweep_action(sweep),
        JobModel::Start { dir, port, phase } => start_action(dir, port, phase),
        JobModel::Stop { dir, phase } => stop_action(dir, phase),
    }
}

/// Job `j` after its action had outcome `o`. An outcome that does not answer
/// the action leaves the job as it was.
pub open spec fn job_next(j: JobModel, o: OutcomeView) -> JobModel {
    match j {
        JobModel::Sweep { sweep } => JobModel::Sweep { sweep: sweep_next(sweep, o) },
        JobModel::Start { dir, port, phase } => JobModel::Start {
            dir,
            port,
            phase: start_next(dir, port, phase, o),
        },
        JobModel::Stop { dir, phase } => JobModel::Stop { dir, phase: stop_next(phase, o) },
    }
}

/// Job `j` after the first `k` outcomes of `outs`.
pub open spec fn job_after(j: JobModel, outs: Seq<OutcomeView>, k: nat) -> JobModel
    decreases k,
{
    if k == 0 {
        j
    } else {
        job_next(job_after(j, outs, (k - 1) as nat), outs[k - 1])
    }
}

/// The `k`-th action of job `j` when its actions have outcomes `outs`.
pub open spec fn job_trace(j: JobModel, outs: Seq<OutcomeView>, k: nat) -> ActionView {
    job_action(job_after(j, outs, k))
}

pub open spec fn sweep_job() -> JobModel {
    JobModel::Sweep { sweep: SweepModel::List }
}

pub open spec fn start_job(dir: Seq<char>, port: u16) -> JobModel {
    JobModel::Start { dir, port, phase: StartModel::Locate }
}

pub open spec fn stop_job(dir: Seq<char>) -> JobModel {
    JobModel::Stop { dir, phase: StopModel::Read }
}

/// Every step keeps a job well formed.
pub proof fn lemma_next_wf(j: JobModel, o: OutcomeView)
    requires
        job_wf(j),
    ensures
        job_wf(job_next(j, o)),
{
    match j {
        JobModel::Sweep { sweep } => {},
        JobModel::Start { .. } => {},
        JobModel::Stop { dir, phase } => {},
    }
}

} // verus!
