//! What holds of every run of the lifecycle procedures, whatever the
//! outcomes of their actions.
use vstd::prelude::*;
use crate::lifecycle_model::{
    is_success, ready_url, server_args, job_action, job_after, job_next, job_trace, job_wf, lemma_next_wf, spec_pid_path,
    start_job, stop_job, sweep_job, ActionView, FinishView, JobModel, OutcomeView, Signal,
    StartModel, StopModel, SweepModel,
};
use crate::listing::listed_pids;
use crate::paths::joined;
use crate::text::{decimal, parse_u32, trim};

verus! {

/// Every job reached from a well-formed job is well formed.
pub proof fn lemma_after_wf(j: JobModel, outs: Seq<OutcomeView>, k: nat)
    requires
        job_wf(j),
    ensures
        job_wf(job_after(j, outs, k)),
    decreases k,
{
    if k > 0 {
        lemma_after_wf(j, outs, (k - 1) as nat);
        lemma_next_wf(job_after(j, outs, (k - 1) as nat), outs[k - 1]);
    }
}

/// The kind of a job, its directory and its port never change.
pub proof fn lemma_after_kind(j: JobModel, outs: Seq<OutcomeView>, k: nat)
    ensures
        j is Sweep ==> job_after(j, outs, k) is Sweep,
        j matches JobModel::Start { dir, port, .. } ==> (job_after(j, outs, k) matches JobModel::Start {
            dir: d,
            port: q,
            ..
        } && d == dir && q == port),
        j matches JobModel::Stop { dir, .. } ==> (job_after(j, outs, k) matches JobModel::Stop {
            dir: d,
            ..
        } && d == dir),
    decreases k,
{
    if k > 0 {
        lemma_after_kind(j, outs, (k - 1) as nat);
    }
}

/// If a job can only come to satisfy `mark` by a step that `seen` describes,
/// then whenever a run has come to satisfy it, such a step was taken before.
proof fn lemma_history(
    j: JobModel,
    outs: Seq<OutcomeView>,
    k: nat,
    mark: spec_fn(JobModel) -> bool,
    seen: spec_fn(JobModel, OutcomeView) -> bool,
)
    requires
        job_wf(j),
        !mark(j),
        forall|s: JobModel, o: OutcomeView|
            job_wf(s) && #[trigger] mark(job_next(s, o)) ==> mark(s) || seen(s, o),
    ensures
        mark(job_after(j, outs, k)) ==> exists|i: nat|
            i < k && #[trigger] seen(job_after(j, outs, i), outs[i as int]),
    decreases k,
{
    if k > 0 {
        let p = (k - 1) as nat;
        lemma_history(j, outs, p, mark, seen);
        lemma_after_wf(j, outs, p);
        let s = job_after(j, outs, p);
        if mark(job_after(j, outs, k)) {
            assert(mark(job_next(s, outs[p as int])));
            if !mark(s) {
                assert(seen(job_after(j, outs, p), outs[p as int]));
            }
        }
    }
}

// ------------------------------------------------------------ start order

/// The start job has listed the running sidecars.
pub open spec fn start_listed(s: JobModel) -> bool {
    match s {
        JobModel::Start { phase, .. } => match phase {
            StartModel::Locate => false,
            StartModel::MakeDir { .. } => false,
            StartModel::Failed { .. } => false,
            StartModel::Sweeping { sweep, .. } => !(sweep is List),
            _ => true,
        },
        _ => false,
    }
}

/// The start job has read the pid file left by an earlier run.
pub open spec fn start_read_stale(s: JobModel) -> bool {
    match s {
        JobModel::Start { phase, .. } => match phase {
            StartModel::Locate => false,
            StartModel::MakeDir { .. } => false,
            StartModel::Failed { .. } => false,
            StartModel::Sweeping { .. } => false,
            StartModel::ReportSwept { .. } => false,
            StartModel::ReadStale { .. } => false,
            _ => true,
        },
        _ => false,
    }
}

/// Starting never spawns the service before it has listed the running
/// sidecars and read the pid file of an earlier run.
pub proof fn law_start_lists_before_spawn(
    dir: Seq<char>,
    port: u16,
    outs: Seq<OutcomeView>,
    k: nat,
)
    requires
        job_trace(start_job(dir, port), outs, k) is Spawn,
    ensures
        exists|i: nat| i < k && #[trigger] job_trace(start_job(dir, port), outs, i) is ListSidecars,
        exists|i: nat| i < k && #[trigger] job_trace(start_job(dir, port), outs, i) is ReadPidFile,
{
    let j = start_job(dir, port);
    let listed = |s: JobModel| start_listed(s);
    let saw_list = |s: JobModel, o: OutcomeView| job_action(s) is ListSidecars;
    assert forall|s: JobModel, o: OutcomeView|
        job_wf(s) && #[trigger] listed(job_next(s, o)) implies listed(s) || saw_list(s, o) by {
    }
    lemma_history(j, outs, k, listed, saw_list);
    let read = |s: JobModel| start_read_stale(s);
    let saw_read = |s: JobModel, o: OutcomeView| job_action(s) is ReadPidFile;
    assert forall|s: JobModel, o: OutcomeView|
        job_wf(s) && #[trigger] read(job_next(s, o)) implies read(s) || saw_read(s, o) by {
    }
    lemma_history(j, outs, k, read, saw_read);
    lemma_after_wf(j, outs, k);
    let i1 = choose|i: nat| i < k && #[trigger] saw_list(job_after(j, outs, i), outs[i as int]);
    assert(job_trace(j, outs, i1) is ListSidecars);
    let i2 = choose|i: nat| i < k && #[trigger] saw_read(job_after(j, outs, i), outs[i as int]);
    assert(job_trace(j, outs, i2) is ReadPidFile);
}

// ------------------------------------------------------------ start result

/// The start job, on `port`, has spawned process `pid`.
pub open spec fn start_spawned(s: JobModel, port: u16, pid: u32) -> bool {
    match s {
        JobModel::Start { port: q, phase, .. } => q == port && match phase {
            StartModel::SavePid { pid: p } => p == pid,
            StartModel::Watch { pid: p } => p == pid,
            StartModel::Clock { pid: p } => p == pid,
            StartModel::Poll { pid: p } => p == pid,
            StartModel::Fetch { pid: p } => p == pid,
            StartModel::Pause { pid: p } => p == pid,
            StartModel::Ready { pid: p } => p == pid,
            StartModel::Started { pid: p } => p == pid,
            _ => false,
        },
        _ => false,
    }
}

/// The start job, in `dir`, has recorded process `pid` in the pid file.
pub open spec fn start_recorded(s: JobModel, dir: Seq<char>, pid: u32) -> bool {
    match s {
        JobModel::Start { dir: d, phase, .. } => d == dir && match phase {
            StartModel::Watch { pid: p } => p == pid,
            StartModel::Clock { pid: p } => p == pid,
            StartModel::Poll { pid: p } => p == pid,
            StartModel::Fetch { pid: p } => p == pid,
            StartModel::Pause { pid: p } => p == pid,
            StartModel::Ready { pid: p } => p == pid,
            StartModel::Started { pid: p } => p == pid,
            _ => false,
        },
        _ => false,
    }
}

/// The start job, on `port`, has had a successful answer from the service
/// of `pid`.
pub open spec fn start_answered(s: JobModel, port: u16, pid: u32) -> bool {
    match s {
        JobModel::Start { port: q, phase, .. } => q == port && match phase {
            StartModel::Ready { pid: p } => p == pid,
            StartModel::Started { pid: p } => p == pid,
            _ => false,
        },
        _ => false,
    }
}

pub open spec fn spawn_answered(a: ActionView, o: OutcomeView, pid: u32, port: u16) -> bool {
    &&& a matches ActionView::Spawn { args, .. } && args == seq![
        "server"@,
        "--port"@,
        decimal(port as nat),
        "--host"@,
        "127.0.0.1"@,
    ]
    &&& o == OutcomeView::Spawned(pid)
}

pub open spec fn records_pid(a: ActionView, dir: Seq<char>, pid: u32) -> bool {
    a == ActionView::WritePidFile { path: joined(dir, "sidecar.pid"@), text: decimal(pid as nat) }
}

pub open spec fn fetch_succeeded(a: ActionView, o: OutcomeView, port: u16) -> bool {
    &&& a == ActionView::Fetch { url: "http://127.0.0.1:"@ + decimal(port as nat) + "/"@ }
    &&& o matches OutcomeView::Status(Some(status)) && 200 <= status <= 299
}

/// A start that succeeds reports the port it was asked to start on and the
/// process it spawned, after spawning that process with `--port` set to that
/// port, recording it in the pid file, and getting a success status from the
/// service at that port.
pub proof fn law_start_result(
    dir: Seq<char>,
    port: u16,
    outs: Seq<OutcomeView>,
    k: nat,
    pid: u32,
    reported: u16,
)
    requires
        job_trace(start_job(dir, port), outs, k) == ActionView::Finish(
            FinishView::Started(pid, reported),
        ),
    ensures
        reported == port,
        exists|i: nat|
            i < k && spawn_answered(
                #[trigger] job_trace(start_job(dir, port), outs, i),
                outs[i as int],
                pid,
                port,
            ),
        exists|i: nat|
            i < k && records_pid(#[trigger] job_trace(start_job(dir, port), outs, i), dir, pid),
        exists|i: nat|
            i < k && fetch_succeeded(
                #[trigger] job_trace(start_job(dir, port), outs, i),
                outs[i as int],
                port,
            ),
{
    let j = start_job(dir, port);
    lemma_after_wf(j, outs, k);
    lemma_after_kind(j, outs, k);
    let spawned = |s: JobModel| start_spawned(s, port, pid);
    let saw_spawn = |s: JobModel, o: OutcomeView| spawn_answered(job_action(s), o, pid, port);
    assert forall|s: JobModel, o: OutcomeView|
        job_wf(s) && #[trigger] spawned(job_next(s, o)) implies spawned(s) || saw_spawn(s, o) by {
    }
    lemma_history(j, outs, k, spawned, saw_spawn);
    let i1 = choose|i: nat| i < k && #[trigger] saw_spawn(job_after(j, outs, i), outs[i as int]);
    assert(spawn_answered(job_trace(j, outs, i1), outs[i1 as int], pid, port));

    let recorded = |s: JobModel| start_recorded(s, dir, pid);
    let saw_write = |s: JobModel, o: OutcomeView| records_pid(job_action(s), dir, pid);
    assert forall|s: JobModel, o: OutcomeView|
        job_wf(s) && #[trigger] recorded(job_next(s, o)) implies recorded(s) || saw_write(s, o) by {
    }
    lemma_history(j, outs, k, recorded, saw_write);
    let i2 = choose|i: nat| i < k && #[trigger] saw_write(job_after(j, outs, i), outs[i as int]);
    assert(records_pid(job_trace(j, outs, i2), dir, pid));

    let answered = |s: JobModel| start_answered(s, port, pid);
    let saw_success = |s: JobModel, o: OutcomeView| fetch_succeeded(job_action(s), o, port);
    assert forall|s: JobModel, o: OutcomeView|
        job_wf(s) && #[trigger] answered(job_next(s, o)) implies answered(s) || saw_success(
            s,
            o,
        ) by {
    }
    lemma_history(j, outs, k, answered, saw_success);
    let i3 = choose|i: nat| i < k && #[trigger] saw_success(job_after(j, outs, i), outs[i as int]);
    assert(fetch_succeeded(job_trace(j, outs, i3), outs[i3 as int], port));
}

// ------------------------------------------------------------ escalation

/// Process `p` is among the first `n` of `pids`.
pub open spec fn among_first(pids: Seq<u32>, n: nat, p: u32) -> bool {
    exists|i: int| 0 <= i < n && i < pids.len() && #[trigger] pids[i] == p
}

/// The sweep `m` has asked process `p` to terminate.
pub open spec fn sweep_termed(m: SweepModel, p: u32) -> bool {
    match m {
        SweepModel::Term { pids, next } => among_first(pids, next, p),
        SweepModel::Settle { pids } => among_first(pids, pids.len(), p),
        SweepModel::Check { pids, .. } => among_first(pids, pids.len(), p),
        SweepModel::Kill { pids, .. } => among_first(pids, pids.len(), p),
        _ => false,
    }
}

/// Job `s` has asked process `p` to terminate and waits to see it gone.
pub open spec fn termed(s: JobModel, p: u32) -> bool {
    match s {
        JobModel::Sweep { sweep } => sweep_termed(sweep, p),
        JobModel::Start { phase, .. } => match phase {
            StartModel::Sweeping { sweep, .. } => sweep_termed(sweep, p),
            StartModel::WaitStale { pid, .. } => pid == p,
            StartModel::RecheckStale { pid, .. } => pid == p,
            StartModel::KillStale { pid, .. } => pid == p,
            _ => false,
        },
        JobModel::Stop { phase, .. } => match phase {
            StopModel::Sweeping { sweep } => sweep_termed(sweep, p),
            StopModel::Poll { pid, .. } => pid == p,
            StopModel::Pause { pid, .. } => pid == p,
            StopModel::Confirm { pid } => pid == p,
            StopModel::Kill { pid } => pid == p,
            _ => false,
        },
    }
}

/// The sweep `m` is about to kill process `p`.
pub open spec fn sweep_killing(m: SweepModel, p: u32) -> bool {
    match m {
        SweepModel::Kill { pids, next } => next < pids.len() && pids[next as int] == p,
        _ => false,
    }
}

/// Job `s` is about to kill process `p`.
pub open spec fn killing(s: JobModel, p: u32) -> bool {
    match s {
        JobModel::Sweep { sweep } => sweep_killing(sweep, p),
        JobModel::Start { phase, .. } => match phase {
            StartModel::Sweeping { sweep, .. } => sweep_killing(sweep, p),
            StartModel::KillStale { pid, .. } => pid == p,
            _ => false,
        },
        JobModel::Stop { phase, .. } => match phase {
            StopModel::Sweeping { sweep } => sweep_killing(sweep, p),
            StopModel::Kill { pid } => pid == p,
            _ => false,
        },
    }
}

proof fn lemma_sweep_termed_step(m: SweepModel, o: OutcomeView, p: u32)
    requires
        crate::lifecycle_model::sweep_wf(m),
        sweep_termed(crate::lifecycle_model::sweep_next(m, o), p),
    ensures
        sweep_termed(m, p) || crate::lifecycle_model::sweep_action(m) == (ActionView::Send {
            pid: p,
            signal: Signal::Terminate,
        }),
{
    match m {
        SweepModel::Term { pids, next } => {
            if let OutcomeView::Done = o {
                let w = choose|i: int|
                    0 <= i < next + 1 && i < pids.len() && #[trigger] pids[i] == p;
                if w < next {
                    assert(among_first(pids, next, p));
                }
            }
        },
        SweepModel::Check { pids, next } => {},
        _ => {},
    }
}

proof fn lemma_sweep_killing_step(m: SweepModel, o: OutcomeView, p: u32)
    requires
        crate::lifecycle_model::sweep_wf(m),
        sweep_killing(crate::lifecycle_model::sweep_next(m, o), p),
    ensures
        sweep_killing(m, p) || (crate::lifecycle_model::sweep_action(m) == (ActionView::Probe {
            pid: p,
        }) && o == OutcomeView::Alive(true) && sweep_termed(m, p)),
{
    match m {
        SweepModel::Check { pids, next } => {
            assert(pids[next as int] == p ==> among_first(pids, pids.len(), p));
        },
        _ => {},
    }
}

/// A job comes to have asked `p` to terminate only by sending it `SIGTERM`.
proof fn lemma_termed_steps(p: u32)
    ensures
        forall|s: JobModel, o: OutcomeView|
            job_wf(s) && #[trigger] termed(job_next(s, o), p) ==> termed(s, p) || job_action(s)
                == (ActionView::Send { pid: p, signal: Signal::Terminate }),
{
    assert forall|s: JobModel, o: OutcomeView|
        job_wf(s) && #[trigger] termed(job_next(s, o), p) implies termed(s, p) || job_action(s)
            == (ActionView::Send { pid: p, signal: Signal::Terminate }) by {
        match s {
            JobModel::Sweep { sweep } => {
                lemma_sweep_termed_step(sweep, o, p);
            },
            JobModel::Start { phase, .. } => {
                if let StartModel::Sweeping { sweep, .. } = phase {
                    lemma_sweep_termed_step(sweep, o, p);
                }
            },
            JobModel::Stop { phase, .. } => {
                if let StopModel::Sweeping { sweep } = phase {
                    lemma_sweep_termed_step(sweep, o, p);
                }
            },
        }
    }
}

/// A process is killed only after it was asked to terminate and was then
/// found still alive: whenever a job sends `SIGKILL` to `p`, it sent
/// `SIGTERM` to `p` earlier, and after that a probe of `p` answered alive.
pub proof fn law_kill_only_after_terminate(
    j: JobModel,
    outs: Seq<OutcomeView>,
    k: nat,
    p: u32,
)
    requires
        j == sweep_job() || (exists|dir: Seq<char>, port: u16| j == start_job(dir, port)) || (exists|
            dir: Seq<char>,
        | j == stop_job(dir)),
        job_trace(j, outs, k) == (ActionView::Send { pid: p, signal: Signal::Kill }),
    ensures
        exists|a: nat, b: nat|
            a < b < k && #[trigger] job_trace(j, outs, a) == (ActionView::Send {
                pid: p,
                signal: Signal::Terminate,
            }) && #[trigger] job_trace(j, outs, b) == (ActionView::Probe { pid: p })
                && outs[b as int] == OutcomeView::Alive(true),
{
    lemma_after_wf(j, outs, k);
    let kill = |s: JobModel| killing(s, p);
    let saw_alive = |s: JobModel, o: OutcomeView|
        job_action(s) == (ActionView::Probe { pid: p }) && o == OutcomeView::Alive(true)
            && termed(s, p);
    assert forall|s: JobModel, o: OutcomeView|
        job_wf(s) && #[trigger] kill(job_next(s, o)) implies kill(s) || saw_alive(s, o) by {
        match s {
            JobModel::Sweep { sweep } => {
                lemma_sweep_killing_step(sweep, o, p);
            },
            JobModel::Start { phase, .. } => {
                if let StartModel::Sweeping { sweep, .. } = phase {
                    lemma_sweep_killing_step(sweep, o, p);
                }
            },
            JobModel::Stop { phase, .. } => {
                if let StopModel::Sweeping { sweep } = phase {
                    lemma_sweep_killing_step(sweep, o, p);
                }
            },
        }
    }
    assert(kill(job_after(j, outs, k)));
    lemma_history(j, outs, k, kill, saw_alive);
    let b = choose|i: nat| i < k && #[trigger] saw_alive(job_after(j, outs, i), outs[i as int]);
    let term = |s: JobModel| termed(s, p);
    let saw_term = |s: JobModel, o: OutcomeView|
        job_action(s) == (ActionView::Send { pid: p, signal: Signal::Terminate });
    lemma_termed_steps(p);
    assert forall|s: JobModel, o: OutcomeView|
        job_wf(s) && #[trigger] term(job_next(s, o)) implies term(s) || saw_term(s, o) by {
        assert(termed(job_next(s, o), p));
    }
    lemma_history(j, outs, b, term, saw_term);
    let a = choose|i: nat| i < b && #[trigger] saw_term(job_after(j, outs, i), outs[i as int]);
    assert(job_trace(j, outs, a) == (ActionView::Send { pid: p, signal: Signal::Terminate }));
    assert(job_trace(j, outs, b) == (ActionView::Probe { pid: p }));
}

// ------------------------------------------------------------ stop order

/// The stop job has reached the sweep of all sidecars.
pub open spec fn stop_sweeping(s: JobModel) -> bool {
    match s {
        JobModel::Stop { phase, .. } => match phase {
            StopModel::Sweeping { .. } => true,
            StopModel::Stopped => true,
            _ => false,
        },
        _ => false,
    }
}

/// The stop job has listed the running sidecars.
pub open spec fn stop_listed(s: JobModel) -> bool {
    match s {
        JobModel::Stop { phase, .. } => match phase {
            StopModel::Sweeping { sweep } => !(sweep is List),
            StopModel::Stopped => true,
            _ => false,
        },
        _ => false,
    }
}

/// The pid-file step of a stop is over: the file named no process, or it
/// was removed.
pub open spec fn pid_file_settled(a: ActionView, o: OutcomeView) -> bool {
    ||| a is RemovePidFile && o == OutcomeView::Done
    ||| a is ReadPidFile && (o == OutcomeView::PidFile(None) || (o matches OutcomeView::PidFile(
        Some(t),
    ) && parse_u32(trim(t)) is None))
}

/// Stopping deals with the process recorded in the pid file first and sweeps
/// every sidecar after: the listing of sidecars comes only once the pid file
/// named no process or was removed, and the stop reports success only after
/// that listing.
pub proof fn law_stop_order(dir: Seq<char>, outs: Seq<OutcomeView>, k: nat)
    ensures
        job_trace(stop_job(dir), outs, k) is ListSidecars ==> exists|i: nat|
            i < k && pid_file_settled(#[trigger] job_trace(stop_job(dir), outs, i), outs[i as int]),
        job_trace(stop_job(dir), outs, k) == ActionView::Finish(FinishView::Stopped) ==> exists|
            i: nat,
        | i < k && #[trigger] job_trace(stop_job(dir), outs, i) is ListSidecars,
{
    let j = stop_job(dir);
    lemma_after_wf(j, outs, k);
    lemma_after_kind(j, outs, k);
    let sweeping = |s: JobModel| stop_sweeping(s);
    let saw_settled = |s: JobModel, o: OutcomeView| pid_file_settled(job_action(s), o);
    assert forall|s: JobModel, o: OutcomeView|
        job_wf(s) && #[trigger] sweeping(job_next(s, o)) implies sweeping(s) || saw_settled(
            s,
            o,
        ) by {
    }
    lemma_history(j, outs, k, sweeping, saw_settled);
    if job_trace(j, outs, k) is ListSidecars {
        assert(sweeping(job_after(j, outs, k)));
        let i = choose|i: nat| i < k && #[trigger] saw_settled(job_after(j, outs, i), outs[i as int]);
        assert(pid_file_settled(job_trace(j, outs, i), outs[i as int]));
    }
    let listed = |s: JobModel| stop_listed(s);
    let saw_list = |s: JobModel, o: OutcomeView| job_action(s) is ListSidecars;
    assert forall|s: JobModel, o: OutcomeView|
        job_wf(s) && #[trigger] listed(job_next(s, o)) implies listed(s) || saw_list(s, o) by {
    }
    lemma_history(j, outs, k, listed, saw_list);
    if job_trace(j, outs, k) == ActionView::Finish(FinishView::Stopped) {
        assert(listed(job_after(j, outs, k)));
        let i = choose|i: nat| i < k && #[trigger] saw_list(job_after(j, outs, i), outs[i as int]);
        assert(job_trace(j, outs, i) is ListSidecars);
    }
}

// ------------------------------------------------------------ sweep count

/// The sweep job works on a list of `n` processes, or has finished with a
/// count of `n`.
pub open spec fn sweep_counting(s: JobModel, n: nat) -> bool {
    match s {
        JobModel::Sweep { sweep } => match sweep {
            SweepModel::Announce { pids } => pids.len() == n,
            SweepModel::Term { pids, .. } => pids.len() == n,
            SweepModel::Settle { pids } => pids.len() == n,
            SweepModel::Check { pids, .. } => pids.len() == n,
            SweepModel::Kill { pids, .. } => pids.len() == n,
            SweepModel::Done { killed } => killed == n,
            SweepModel::List => false,
        },
        _ => false,
    }
}

/// The listing answered with `o` names `n` distinct processes (none when the
/// listing could not be run).
pub open spec fn listing_counts(o: OutcomeView, n: nat) -> bool {
    ||| o == OutcomeView::Listing(None) && n == 0
    ||| (o matches OutcomeView::Listing(Some(out)) && listed_pids(out).len() == n)
}

/// The sweep reports as its count the number of distinct processes that the
/// listing named (zero when the listing could not be run).
pub proof fn law_sweep_count(outs: Seq<OutcomeView>, k: nat, n: nat)
    requires
        job_trace(sweep_job(), outs, k) == ActionView::Finish(FinishView::Swept(n)),
    ensures
        exists|i: nat|
            i < k && #[trigger] job_trace(sweep_job(), outs, i) is ListSidecars && listing_counts(
                outs[i as int],
                n,
            ),
{
    let j = sweep_job();
    lemma_after_wf(j, outs, k);
    let counting = |s: JobModel| sweep_counting(s, n);
    let saw_listing = |s: JobModel, o: OutcomeView|
        job_action(s) is ListSidecars && listing_counts(o, n);
    assert forall|s: JobModel, o: OutcomeView|
        job_wf(s) && #[trigger] counting(job_next(s, o)) implies counting(s) || saw_listing(
            s,
            o,
        ) by {
    }
    assert(counting(job_after(j, outs, k)));
    lemma_history(j, outs, k, counting, saw_listing);
    let i = choose|i: nat| i < k && #[trigger] saw_listing(job_after(j, outs, i), outs[i as int]);
    assert(job_trace(j, outs, i) is ListSidecars);
}

// ------------------------------------------------------------ sweep reach

/// Each of `pids` was sent `SIGTERM` among the first `k` actions of job `j`.
pub open spec fn terminated_all(j: JobModel, outs: Seq<OutcomeView>, k: nat, pids: Seq<u32>) -> bool {
    forall|p: u32|
        pids.contains(p) ==> exists|a: nat|
            a < k && #[trigger] job_trace(j, outs, a) == (ActionView::Send {
                pid: p,
                signal: Signal::Terminate,
            })
}

/// The sweep has finished with a positive count.
pub open spec fn sweep_done_some(s: JobModel) -> bool {
    s matches JobModel::Sweep { sweep: SweepModel::Done { killed } } && killed > 0
}

/// The sweep is asking about, or killing, one of the processes of `pids`.
pub open spec fn sweep_checking(s: JobModel) -> bool {
    ||| s matches JobModel::Sweep { sweep: SweepModel::Check { .. } }
    ||| s matches JobModel::Sweep { sweep: SweepModel::Kill { .. } }
}

/// The list of processes the sweep works on.
pub open spec fn sweep_list(s: JobModel) -> Option<Seq<u32>> {
    match s {
        JobModel::Sweep { sweep } => match sweep {
            SweepModel::Announce { pids } => Some(pids),
            SweepModel::Term { pids, .. } => Some(pids),
            SweepModel::Settle { pids } => Some(pids),
            SweepModel::Check { pids, .. } => Some(pids),
            SweepModel::Kill { pids, .. } => Some(pids),
            _ => None,
        },
        _ => None,
    }
}

/// A listing answered `o`, naming exactly the processes `pids`.
pub open spec fn listing_names(o: OutcomeView, pids: Seq<u32>) -> bool {
    o matches OutcomeView::Listing(Some(out)) && listed_pids(out) == pids
}

/// A sweep that ends having found processes has asked every process that
/// its listing named to terminate.
pub proof fn law_sweep_terminates_all_listed(outs: Seq<OutcomeView>, k: nat, n: nat)
    requires
        job_trace(sweep_job(), outs, k) == ActionView::Finish(FinishView::Swept(n)),
        n > 0,
    ensures
        exists|i: nat|
            i < k && (#[trigger] job_trace(sweep_job(), outs, i)) is ListSidecars && (
            outs[i as int] matches OutcomeView::Listing(Some(out)) && terminated_all(
                sweep_job(),
                outs,
                k,
                listed_pids(out),
            )),
{
    let j = sweep_job();
    lemma_after_wf(j, outs, k);
    let done = |s: JobModel| sweep_done_some(s);
    let saw_check = |s: JobModel, o: OutcomeView| sweep_checking(s);
    assert forall|s: JobModel, o: OutcomeView|
        job_wf(s) && #[trigger] done(job_next(s, o)) implies done(s) || saw_check(s, o) by {
    }
    assert(done(job_after(j, outs, k)));
    lemma_history(j, outs, k, done, saw_check);
    let m = choose|i: nat| i < k && #[trigger] saw_check(job_after(j, outs, i), outs[i as int]);
    lemma_after_wf(j, outs, m);
    let sm = job_after(j, outs, m);
    let pids = sweep_list(sm)->0;
    assert(sweep_list(sm) is Some);

    let listed = |s: JobModel| sweep_list(s) == Some(pids);
    let saw_listing = |s: JobModel, o: OutcomeView|
        job_action(s) is ListSidecars && listing_names(o, pids);
    assert forall|s: JobModel, o: OutcomeView|
        job_wf(s) && #[trigger] listed(job_next(s, o)) implies listed(s) || saw_listing(s, o) by {
    }
    lemma_history(j, outs, m, listed, saw_listing);
    let i = choose|i: nat| i < m && #[trigger] saw_listing(job_after(j, outs, i), outs[i as int]);

    assert forall|p: u32| pids.contains(p) implies exists|a: nat|
        a < k && #[trigger] job_trace(j, outs, a) == (ActionView::Send {
            pid: p,
            signal: Signal::Terminate,
        }) by {
        let w = choose|w: int| 0 <= w < pids.len() && pids[w] == p;
        assert(among_first(pids, pids.len(), p));
        assert(termed(sm, p));
        let term = |s: JobModel| termed(s, p);
        let saw_term = |s: JobModel, o: OutcomeView|
            job_action(s) == (ActionView::Send { pid: p, signal: Signal::Terminate });
        lemma_termed_steps(p);
        assert forall|s: JobModel, o: OutcomeView|
            job_wf(s) && #[trigger] term(job_next(s, o)) implies term(s) || saw_term(s, o) by {
            assert(termed(job_next(s, o), p));
        }
        lemma_history(j, outs, m, term, saw_term);
        let a = choose|a: nat| a < m && #[trigger] saw_term(job_after(j, outs, a), outs[a as int]);
        assert(job_trace(j, outs, a) == (ActionView::Send { pid: p, signal: Signal::Terminate }));
    }
    assert(job_trace(j, outs, i) is ListSidecars);
    assert(listing_names(outs[i as int], pids));
}

// ------------------------------------------------------------ leaving a set

/// A run that is inside a set of jobs at step `i` and outside it at step `k`
/// left it at some step in between.
proof fn lemma_exit(
    j: JobModel,
    outs: Seq<OutcomeView>,
    i: nat,
    k: nat,
    inside: spec_fn(JobModel) -> bool,
)
    requires
        i <= k,
        inside(job_after(j, outs, i)),
        !inside(job_after(j, outs, k)),
    ensures
        exists|a: nat|
            i <= a < k && inside(job_after(j, outs, a)) && !inside(
                #[trigger] job_after(j, outs, a + 1),
            ),
    decreases k - i,
{
    if inside(job_after(j, outs, i + 1)) {
        lemma_exit(j, outs, i + 1, k, inside);
    } else {
        assert(!inside(job_after(j, outs, i + 1)));
    }
}

/// The process id that the pid-file answer at step `i` names, if any.
pub open spec fn stale_pid_at(outs: Seq<OutcomeView>, i: nat) -> Option<u32> {
    match outs[i as int] {
        OutcomeView::PidFile(Some(t)) => parse_u32(trim(t)),
        _ => None,
    }
}

// ------------------------------------------------------------ start sweep

/// The start job is past its sweep of the running sidecars.
pub open spec fn start_past_sweep(s: JobModel) -> bool {
    match s {
        JobModel::Start { phase, .. } => match phase {
            StartModel::Locate => false,
            StartModel::MakeDir { .. } => false,
            StartModel::Sweeping { .. } => false,
            StartModel::Failed { .. } => false,
            _ => true,
        },
        _ => false,
    }
}

/// The start job is at a step of its sweep after which the sweep may end.
pub open spec fn start_sweep_ending(s: JobModel) -> bool {
    s matches JobModel::Start { phase: StartModel::Sweeping { sweep, .. }, .. } && (
    sweep is List || sweep is Check || sweep is Kill)
}

/// The processes that the start job's sweep works on.
pub open spec fn start_sweep_list(s: JobModel) -> Option<Seq<u32>> {
    match s {
        JobModel::Start { phase: StartModel::Sweeping { sweep, .. }, .. } => sweep_list(
            JobModel::Sweep { sweep },
        ),
        _ => None,
    }
}

/// The listing answered `o`, and every process it named was sent `SIGTERM`
/// among the first `k` actions of the run.
pub open spec fn listing_terminated(
    o: OutcomeView,
    j: JobModel,
    outs: Seq<OutcomeView>,
    k: nat,
) -> bool {
    ||| o == OutcomeView::Listing(None)
    ||| (o matches OutcomeView::Listing(Some(out)) && terminated_all(j, outs, k, listed_pids(out)))
}

/// Starting kills every leftover sidecar before it spawns the service: the
/// spawn comes after a listing of the running sidecars, and every process
/// that listing named was sent `SIGTERM` before the spawn (and, by
/// `law_kill_only_after_terminate`, `SIGKILL` only after a probe found it
/// still alive).
pub proof fn law_start_terminates_listed_before_spawn(
    dir: Seq<char>,
    port: u16,
    outs: Seq<OutcomeView>,
    k: nat,
)
    requires
        job_trace(start_job(dir, port), outs, k) is Spawn,
    ensures
        exists|i: nat|
            i < k && (#[trigger] job_trace(start_job(dir, port), outs, i)) is ListSidecars
                && listing_terminated(outs[i as int], start_job(dir, port), outs, k),
{
    let j = start_job(dir, port);
    lemma_after_wf(j, outs, k);
    lemma_after_kind(j, outs, k);
    let past = |s: JobModel| start_past_sweep(s);
    let ending = |s: JobModel, o: OutcomeView|
        start_sweep_ending(s) && start_past_sweep(job_next(s, o));
    assert forall|s: JobModel, o: OutcomeView|
        job_wf(s) && #[trigger] past(job_next(s, o)) implies past(s) || ending(s, o) by {
    }
    assert(past(job_after(j, outs, k)));
    lemma_history(j, outs, k, past, ending);
    let m = choose|i: nat| i < k && #[trigger] ending(job_after(j, outs, i), outs[i as int]);
    lemma_after_wf(j, outs, m);
    let sm = job_after(j, outs, m);
    if sm matches JobModel::Start { phase: StartModel::Sweeping { sweep: SweepModel::List, .. }, .. } {
        assert(job_trace(j, outs, m) is ListSidecars);
        if let OutcomeView::Listing(Some(out)) = outs[m as int] {
            assert(listed_pids(out).len() == 0);
            assert forall|p: u32| listed_pids(out).contains(p) implies exists|a: nat|
                a < k && #[trigger] job_trace(j, outs, a) == (ActionView::Send {
                    pid: p,
                    signal: Signal::Terminate,
                }) by {
                assert(!listed_pids(out).contains(p));
            }
        }
        assert(listing_terminated(outs[m as int], j, outs, k));
    } else {
        let pids = start_sweep_list(sm)->0;
        assert(start_sweep_list(sm) is Some);
        let listed = |s: JobModel| start_sweep_list(s) == Some(pids);
        let saw_listing = |s: JobModel, o: OutcomeView|
            job_action(s) is ListSidecars && listing_names(o, pids);
        assert forall|s: JobModel, o: OutcomeView|
            job_wf(s) && #[trigger] listed(job_next(s, o)) implies listed(s) || saw_listing(
                s,
                o,
            ) by {
        }
        lemma_history(j, outs, m, listed, saw_listing);
        let i = choose|i: nat|
            i < m && #[trigger] saw_listing(job_after(j, outs, i), outs[i as int]);
        assert forall|p: u32| pids.contains(p) implies exists|a: nat|
            a < k && #[trigger] job_trace(j, outs, a) == (ActionView::Send {
                pid: p,
                signal: Signal::Terminate,
            }) by {
            assert(among_first(pids, pids.len(), p));
            assert(termed(sm, p));
            let term = |s: JobModel| termed(s, p);
            let saw_term = |s: JobModel, o: OutcomeView|
                job_action(s) == (ActionView::Send { pid: p, signal: Signal::Terminate });
            lemma_termed_steps(p);
            assert forall|s: JobModel, o: OutcomeView|
                job_wf(s) && #[trigger] term(job_next(s, o)) implies term(s) || saw_term(s, o) by {
                assert(termed(job_next(s, o), p));
            }
            lemma_history(j, outs, m, term, saw_term);
            let a = choose|a: nat|
                a < m && #[trigger] saw_term(job_after(j, outs, a), outs[a as int]);
            assert(job_trace(j, outs, a) == (ActionView::Send {
                pid: p,
                signal: Signal::Terminate,
            }));
        }
        assert(job_trace(j, outs, i) is ListSidecars);
        assert(listing_names(outs[i as int], pids));
        assert(listing_terminated(outs[i as int], j, outs, k));
    }
}

// ------------------------------------------------------------ start stale pid

/// The start job has dealt with the pid file of an earlier run.
pub open spec fn start_settled(s: JobModel) -> bool {
    match s {
        JobModel::Start { phase, .. } => match phase {
            StartModel::OpenLog { .. } => true,
            StartModel::ShareLog { .. } => true,
            StartModel::Spawn { .. } => true,
            StartModel::SavePid { .. } => true,
            StartModel::Watch { .. } => true,
            StartModel::Clock { .. } => true,
            StartModel::Poll { .. } => true,
            StartModel::Fetch { .. } => true,
            StartModel::Pause { .. } => true,
            StartModel::Ready { .. } => true,
            StartModel::Started { .. } => true,
            _ => false,
        },
        _ => false,
    }
}

/// The start job is about to report or terminate the stale process `p`.
pub open spec fn start_terminating(s: JobModel, p: u32) -> bool {
    ||| s matches JobModel::Start { phase: StartModel::ReportStale { pid, .. }, .. } && pid == p
    ||| s matches JobModel::Start { phase: StartModel::TermStale { pid, .. }, .. } && pid == p
}

/// Starting deals with the process of an earlier run before it spawns the
/// service: the pid file named no process or was removed before the spawn,
/// and when the process it named was found alive, it was sent `SIGTERM`
/// before the spawn.
pub proof fn law_start_clears_stale_pid_before_spawn(
    dir: Seq<char>,
    port: u16,
    outs: Seq<OutcomeView>,
    k: nat,
)
    requires
        job_trace(start_job(dir, port), outs, k) is Spawn,
    ensures
        exists|i: nat|
            i < k && pid_file_settled(
                #[trigger] job_trace(start_job(dir, port), outs, i),
                outs[i as int],
            ),
        forall|i: nat|
            i + 1 < k && (#[trigger] job_trace(start_job(dir, port), outs, i)) is ReadPidFile
                && stale_pid_at(outs, i) is Some && outs[i + 1int] == OutcomeView::Alive(true)
                ==> exists|a: nat|
                i < a < k && #[trigger] job_trace(start_job(dir, port), outs, a) == (
                ActionView::Send { pid: stale_pid_at(outs, i)->0, signal: Signal::Terminate }),
{
    let j = start_job(dir, port);
    lemma_after_wf(j, outs, k);
    lemma_after_kind(j, outs, k);
    let settled = |s: JobModel| start_settled(s);
    let saw_settled = |s: JobModel, o: OutcomeView| pid_file_settled(job_action(s), o);
    assert forall|s: JobModel, o: OutcomeView|
        job_wf(s) && #[trigger] settled(job_next(s, o)) implies settled(s) || saw_settled(s, o) by {
    }
    assert(settled(job_after(j, outs, k)));
    lemma_history(j, outs, k, settled, saw_settled);
    let r = choose|i: nat| i < k && #[trigger] saw_settled(job_after(j, outs, i), outs[i as int]);
    assert(pid_file_settled(job_trace(j, outs, r), outs[r as int]));

    assert forall|i: nat|
        i + 1 < k && (#[trigger] job_trace(j, outs, i)) is ReadPidFile && stale_pid_at(outs, i)
            is Some && outs[i + 1int] == OutcomeView::Alive(true) implies exists|a: nat|
        i < a < k && #[trigger] job_trace(j, outs, a) == (ActionView::Send {
            pid: stale_pid_at(outs, i)->0,
            signal: Signal::Terminate,
        }) by {
        let p = stale_pid_at(outs, i)->0;
        lemma_after_kind(j, outs, i);
        lemma_after_kind(j, outs, i + 1);
        lemma_after_kind(j, outs, i + 2);
        assert(job_after(j, outs, i + 1) == job_next(job_after(j, outs, i), outs[i as int]));
        assert(job_after(j, outs, i + 2) == job_next(
            job_after(j, outs, i + 1),
            outs[(i + 1) as int],
        ));
        let inside = |s: JobModel| start_terminating(s, p);
        assert(inside(job_after(j, outs, i + 2)));
        lemma_exit(j, outs, i + 2, k, inside);
        let a = choose|a: nat|
            i + 2 <= a < k && inside(job_after(j, outs, a)) && !inside(
                #[trigger] job_after(j, outs, a + 1),
            );
        assert(job_after(j, outs, a + 1) == job_next(job_after(j, outs, a), outs[a as int]));
        assert(job_trace(j, outs, a) == (ActionView::Send { pid: p, signal: Signal::Terminate }));
    }
}

// ------------------------------------------------------------ stop

/// The stop job is about to terminate the recorded process `p`.
pub open spec fn stop_terminating(s: JobModel, p: u32) -> bool {
    s matches JobModel::Stop { phase: StopModel::Term { pid }, .. } && pid == p
}

/// Stopping kills the recorded process first: when the pid file names a
/// process that is found alive, it is sent `SIGTERM` before the sweep of
/// all sidecars lists them.
pub proof fn law_stop_terminates_recorded_before_sweep(
    dir: Seq<char>,
    outs: Seq<OutcomeView>,
    k: nat,
)
    requires
        job_trace(stop_job(dir), outs, k) is ListSidecars,
    ensures
        forall|i: nat|
            i + 1 < k && (#[trigger] job_trace(stop_job(dir), outs, i)) is ReadPidFile
                && stale_pid_at(outs, i) is Some && outs[i + 1int] == OutcomeView::Alive(true)
                ==> exists|a: nat|
                i < a < k && #[trigger] job_trace(stop_job(dir), outs, a) == (ActionView::Send {
                    pid: stale_pid_at(outs, i)->0,
                    signal: Signal::Terminate,
                }),
{
    let j = stop_job(dir);
    lemma_after_wf(j, outs, k);
    lemma_after_kind(j, outs, k);
    assert forall|i: nat|
        i + 1 < k && (#[trigger] job_trace(j, outs, i)) is ReadPidFile && stale_pid_at(outs, i)
            is Some && outs[i + 1int] == OutcomeView::Alive(true) implies exists|a: nat|
        i < a < k && #[trigger] job_trace(j, outs, a) == (ActionView::Send {
            pid: stale_pid_at(outs, i)->0,
            signal: Signal::Terminate,
        }) by {
        let p = stale_pid_at(outs, i)->0;
        lemma_after_kind(j, outs, i);
        lemma_after_kind(j, outs, i + 1);
        lemma_after_wf(j, outs, i);
        lemma_after_wf(j, outs, i + 1);
        assert(job_after(j, outs, i + 1) == job_next(job_after(j, outs, i), outs[i as int]));
        assert(job_after(j, outs, i + 2) == job_next(
            job_after(j, outs, i + 1),
            outs[(i + 1) as int],
        ));
        let inside = |s: JobModel| stop_terminating(s, p);
        assert(inside(job_after(j, outs, i + 2)));
        lemma_exit(j, outs, i + 2, k, inside);
        let a = choose|a: nat|
            i + 2 <= a < k && inside(job_after(j, outs, a)) && !inside(
                #[trigger] job_after(j, outs, a + 1),
            );
        assert(job_after(j, outs, a + 1) == job_next(job_after(j, outs, a), outs[a as int]));
        assert(job_trace(j, outs, a) == (ActionView::Send { pid: p, signal: Signal::Terminate }));
    }
}

/// A stop whose pid file is absent, or names no process, goes straight to
/// the sweep.
proof fn lemma_stop_without_file_sweeps(dir: Seq<char>, outs: Seq<OutcomeView>, n: nat)
    requires
        outs[0] is PidFile,
        stale_pid_at(outs, 0) is None,
        n >= 1,
    ensures
        stop_sweeping(job_after(stop_job(dir), outs, n)),
        job_wf(job_after(stop_job(dir), outs, n)),
    decreases n,
{
    let j = stop_job(dir);
    assert(job_after(j, outs, 0) == j);
    assert(job_after(j, outs, n) == job_next(job_after(j, outs, (n - 1) as nat), outs[n - 1]));
    lemma_after_wf(stop_job(dir), outs, n);
    if n > 1 {
        lemma_stop_without_file_sweeps(dir, outs, (n - 1) as nat);
    }
}

/// A stop that finds no pid file (as after an earlier successful stop), or a
/// pid file whose text is no process id, sends no signal before listing the
/// sidecars, and can only end with `Stopped`.
pub proof fn law_stop_without_recorded_pid(dir: Seq<char>, outs: Seq<OutcomeView>, k: nat)
    requires
        outs[0] is PidFile,
        stale_pid_at(outs, 0) is None,
    ensures
        job_trace(stop_job(dir), outs, k) is Finish ==> job_trace(stop_job(dir), outs, k)
            == ActionView::Finish(FinishView::Stopped),
        job_trace(stop_job(dir), outs, k) is Send ==> exists|i: nat|
            i < k && #[trigger] job_trace(stop_job(dir), outs, i) is ListSidecars,
{
    let j = stop_job(dir);
    lemma_after_wf(j, outs, k);
    if k >= 1 {
        lemma_stop_without_file_sweeps(dir, outs, k);
        let listed = |s: JobModel| stop_listed(s);
        let saw_list = |s: JobModel, o: OutcomeView| job_action(s) is ListSidecars;
        assert forall|s: JobModel, o: OutcomeView|
            job_wf(s) && #[trigger] listed(job_next(s, o)) implies listed(s) || saw_list(s, o) by {
        }
        lemma_history(j, outs, k, listed, saw_list);
        if job_trace(j, outs, k) is Send {
            assert(listed(job_after(j, outs, k)));
            let i = choose|i: nat|
                i < k && #[trigger] saw_list(job_after(j, outs, i), outs[i as int]);
            assert(job_trace(j, outs, i) is ListSidecars);
        }
    }
}

/// The stop job has left the reading of the pid file behind.
pub open spec fn stop_past_read(s: JobModel) -> bool {
    s is Stop && !(s matches JobModel::Stop { phase: StopModel::Read, .. })
}

proof fn lemma_stop_past_read(dir: Seq<char>, outs: Seq<OutcomeView>, n: nat)
    requires
        outs[0] matches OutcomeView::PidFile(Some(t)) && parse_u32(trim(t)) is Some,
        n >= 1,
    ensures
        stop_past_read(job_after(stop_job(dir), outs, n)),
    decreases n,
{
    let j = stop_job(dir);
    assert(job_after(j, outs, 0) == j);
    assert(job_after(j, outs, n) == job_next(job_after(j, outs, (n - 1) as nat), outs[n - 1]));
    if n > 1 {
        lemma_stop_past_read(dir, outs, (n - 1) as nat);
    }
}

/// The process `p` is gone by the stop's own checks: a probe of it answered
/// dead, or it was sent `SIGKILL`, among steps `1` to `k`.
pub open spec fn seen_gone(j: JobModel, outs: Seq<OutcomeView>, k: nat, p: u32) -> bool {
    ||| exists|c: nat|
        1 <= c < k && #[trigger] job_trace(j, outs, c) == (ActionView::Probe { pid: p })
            && outs[c as int] == OutcomeView::Alive(false)
    ||| exists|a: nat|
        1 <= a < k && #[trigger] job_trace(j, outs, a) == (ActionView::Send {
            pid: p,
            signal: Signal::Kill,
        })
}

/// The stop job is dealing with the recorded process `p`.
pub open spec fn stop_handling(s: JobModel, p: u32) -> bool {
    match s {
        JobModel::Stop { phase, .. } => match phase {
            StopModel::Probe { pid } => pid == p,
            StopModel::Term { pid } => pid == p,
            StopModel::Poll { pid, .. } => pid == p,
            StopModel::Pause { pid, .. } => pid == p,
            StopModel::Confirm { pid } => pid == p,
            StopModel::Kill { pid } => pid == p,
            _ => false,
        },
        _ => false,
    }
}

/// A stop that reads a pid naming `p` and reports `Stopped` has seen `p`
/// dead or sent it `SIGKILL`.
proof fn lemma_stop_recorded_gone(dir: Seq<char>, outs: Seq<OutcomeView>, k: nat, p: u32)
    requires
        stale_pid_at(outs, 0) == Some(p),
        job_trace(stop_job(dir), outs, k) == ActionView::Finish(FinishView::Stopped),
    ensures
        seen_gone(stop_job(dir), outs, k, p),
{
    let j = stop_job(dir);
    assert(job_after(j, outs, 0) == j);
    assert(job_after(j, outs, 1) == job_next(j, outs[0]));
    lemma_after_kind(j, outs, k);
    lemma_after_wf(j, outs, k);
    let inside = |s: JobModel| stop_handling(s, p);
    assert(inside(job_after(j, outs, 1)));
    assert(k >= 1);
    assert(!inside(job_after(j, outs, k)));
    lemma_exit(j, outs, 1, k, inside);
    let a = choose|a: nat|
        1 <= a < k && inside(job_after(j, outs, a)) && !inside(
            #[trigger] job_after(j, outs, a + 1),
        );
    assert(job_after(j, outs, a + 1) == job_next(job_after(j, outs, a), outs[a as int]));
    if job_trace(j, outs, a) == (ActionView::Send { pid: p, signal: Signal::Kill }) {
        assert(seen_gone(j, outs, k, p));
    } else {
        assert(job_trace(j, outs, a) == (ActionView::Probe { pid: p }));
        assert(outs[a as int] == OutcomeView::Alive(false));
        assert(seen_gone(j, outs, k, p));
    }
}

/// Stopping the service that a start recorded: when the pid file holds what
/// a start wrote for `pid`, the stop probes `pid` first, sends it `SIGTERM`
/// when it is alive, and reports `Stopped` only after removing the pid file
/// and after seeing `pid` dead or sending it `SIGKILL`.
pub proof fn law_stop_of_recorded_pid(dir: Seq<char>, outs: Seq<OutcomeView>, k: nat, pid: u32)
    requires
        outs[0] == OutcomeView::PidFile(Some(decimal(pid as nat))),
    ensures
        job_trace(stop_job(dir), outs, 1) == (ActionView::Probe { pid }),
        outs[1] == OutcomeView::Alive(true) ==> job_trace(stop_job(dir), outs, 2) == (
        ActionView::Send { pid, signal: Signal::Terminate }),
        job_trace(stop_job(dir), outs, k) == ActionView::Finish(FinishView::Stopped) ==> exists|
            r: nat,
        | r < k && (#[trigger] job_trace(stop_job(dir), outs, r)) is RemovePidFile && outs[r as int]
            == OutcomeView::Done,
        job_trace(stop_job(dir), outs, k) == ActionView::Finish(FinishView::Stopped) ==> seen_gone(
            stop_job(dir),
            outs,
            k,
            pid,
        ),
{
    let j = stop_job(dir);
    crate::sidecar::lemma_pid_file_roundtrip(pid);
    assert(job_after(j, outs, 0) == j);
    assert(job_after(j, outs, 1) == job_next(j, outs[0]));
    assert(job_after(j, outs, 2) == job_next(job_after(j, outs, 1), outs[1]));
    lemma_after_wf(j, outs, k);
    lemma_after_kind(j, outs, k);
    if job_trace(j, outs, k) == ActionView::Finish(FinishView::Stopped) {
        let sweeping = |s: JobModel| stop_sweeping(s);
        let saw_settled = |s: JobModel, o: OutcomeView| pid_file_settled(job_action(s), o);
        assert forall|s: JobModel, o: OutcomeView|
            job_wf(s) && #[trigger] sweeping(job_next(s, o)) implies sweeping(s) || saw_settled(
                s,
                o,
            ) by {
        }
        assert(sweeping(job_after(j, outs, k)));
        lemma_history(j, outs, k, sweeping, saw_settled);
        let r = choose|i: nat|
            i < k && #[trigger] saw_settled(job_after(j, outs, i), outs[i as int]);
        lemma_after_kind(j, outs, r);
        if r >= 1 {
            lemma_stop_past_read(dir, outs, r);
        }
        assert(job_trace(j, outs, r) is RemovePidFile);
        lemma_stop_recorded_gone(dir, outs, k, pid);
    }
}

/// The start job has spawned process `q`, or has failed.
pub open spec fn start_holding(s: JobModel, q: u32) -> bool {
    match s {
        JobModel::Start { phase, .. } => match phase {
            StartModel::SavePid { pid } => pid == q,
            StartModel::Watch { pid } => pid == q,
            StartModel::Clock { pid } => pid == q,
            StartModel::Poll { pid } => pid == q,
            StartModel::Fetch { pid } => pid == q,
            StartModel::Pause { pid } => pid == q,
            StartModel::Ready { pid } => pid == q,
            StartModel::Started { pid } => pid == q,
            StartModel::Failed { .. } => true,
            _ => false,
        },
        _ => false,
    }
}

/// What a start writes to the pid file names the process it reports.
proof fn lemma_start_writes_reported_pid(
    dir: Seq<char>,
    port: u16,
    outs: Seq<OutcomeView>,
    i: nat,
    k: nat,
    pid: u32,
    reported: u16,
)
    requires
        i < k,
        job_trace(start_job(dir, port), outs, i) is WritePidFile,
        job_trace(start_job(dir, port), outs, k) == ActionView::Finish(
            FinishView::Started(pid, reported),
        ),
    ensures
        job_trace(start_job(dir, port), outs, i) matches ActionView::WritePidFile { text, .. }
            && text == decimal(pid as nat),
{
    let j = start_job(dir, port);
    lemma_after_kind(j, outs, i);
    lemma_after_kind(j, outs, k);
    let q = job_after(j, outs, i)->Start_phase->SavePid_pid;
    let inside = |s: JobModel| start_holding(s, q);
    assert(inside(job_after(j, outs, i)));
    if pid != q {
        assert(!inside(job_after(j, outs, k)));
        lemma_exit(j, outs, i, k, inside);
        let a = choose|a: nat|
            i <= a < k && inside(job_after(j, outs, a)) && !inside(
                #[trigger] job_after(j, outs, a + 1),
            );
        assert(job_after(j, outs, a + 1) == job_next(job_after(j, outs, a), outs[a as int]));
        lemma_after_kind(j, outs, a);
        assert(false);
    }
}

/// A stop after a successful start, with the pid file as the start left it,
/// deals with the started process: it probes it first, and reports
/// `Stopped` only after removing the pid file and after seeing the process
/// dead or sending it `SIGKILL`.
pub proof fn law_start_then_stop(
    dir: Seq<char>,
    port: u16,
    start_outs: Seq<OutcomeView>,
    k: nat,
    i: nat,
    pid: u32,
    reported: u16,
    stop_outs: Seq<OutcomeView>,
    n: nat,
)
    requires
        job_trace(start_job(dir, port), start_outs, k) == ActionView::Finish(
            FinishView::Started(pid, reported),
        ),
        i < k,
        (job_trace(start_job(dir, port), start_outs, i) matches ActionView::WritePidFile {
            text,
            ..
        } && stop_outs[0] == OutcomeView::PidFile(Some(text))),
    ensures
        job_trace(stop_job(dir), stop_outs, 1) == (ActionView::Probe { pid }),
        job_trace(stop_job(dir), stop_outs, n) == ActionView::Finish(FinishView::Stopped) ==> (
        exists|r: nat|
            r < n && (#[trigger] job_trace(stop_job(dir), stop_outs, r)) is RemovePidFile
                && stop_outs[r as int] == OutcomeView::Done),
        job_trace(stop_job(dir), stop_outs, n) == ActionView::Finish(FinishView::Stopped)
            ==> seen_gone(stop_job(dir), stop_outs, n, pid),
{
    lemma_start_writes_reported_pid(dir, port, start_outs, i, k, pid, reported);
    law_stop_of_recorded_pid(dir, stop_outs, n, pid);
}

// ------------------------------------------------------------ readiness

/// While a start waits for the service, only a status in `200..=299` counts
/// as ready: after a request answered so, the start reports the service as
/// started; after any other answer (another status, or a failed request) it
/// pauses for half a second and asks again.
pub proof fn law_start_ready_only_on_2xx(dir: Seq<char>, port: u16, outs: Seq<OutcomeView>, k: nat)
    requires
        job_trace(start_job(dir, port), outs, k) is Fetch,
        outs[k as int] is Status,
    ensures
        (outs[k as int] matches OutcomeView::Status(Some(status)) && 200 <= status <= 299)
            ==> job_trace(start_job(dir, port), outs, k + 1) == (ActionView::Log {
            line: "[Ever-Living] Sidecar 已启动 PID="@ + decimal(
                job_after(start_job(dir, port), outs, k)->Start_phase->Fetch_pid as nat,
            ) + " 端口="@ + decimal(port as nat),
        }),
        !(outs[k as int] matches OutcomeView::Status(Some(status)) && 200 <= status <= 299)
            ==> job_trace(start_job(dir, port), outs, k + 1) == (ActionView::Sleep { millis: 500 }),
{
    let j = start_job(dir, port);
    lemma_after_kind(j, outs, k);
    assert(job_after(j, outs, k + 1) == job_next(job_after(j, outs, k), outs[k as int]));
}

// ------------------------------------------------------------ survivors

/// The sweep a job is running, if it is running one.
pub open spec fn sweep_of(s: JobModel) -> Option<SweepModel> {
    match s {
        JobModel::Sweep { sweep } => Some(sweep),
        JobModel::Start { phase: StartModel::Sweeping { sweep, .. }, .. } => Some(sweep),
        JobModel::Stop { phase: StopModel::Sweeping { sweep }, .. } => Some(sweep),
        _ => None,
    }
}

/// The job's sweep works on `pids` and has not yet dealt with the process
/// at position `idx`.
pub open spec fn sweep_within(s: JobModel, pids: Seq<u32>, idx: nat) -> bool {
    match sweep_of(s) {
        Some(SweepModel::Announce { pids: p }) => p == pids,
        Some(SweepModel::Term { pids: p, .. }) => p == pids,
        Some(SweepModel::Settle { pids: p }) => p == pids,
        Some(SweepModel::Check { pids: p, next }) => p == pids && next <= idx,
        Some(SweepModel::Kill { pids: p, next }) => p == pids && next <= idx,
        _ => false,
    }
}

/// The job's sweep works on `pids` and has not yet sent `SIGTERM` to the
/// process at position `idx`.
pub open spec fn sweep_before_term(s: JobModel, pids: Seq<u32>, idx: nat) -> bool {
    match sweep_of(s) {
        Some(SweepModel::Announce { pids: p }) => p == pids,
        Some(SweepModel::Term { pids: p, next }) => p == pids && next <= idx,
        _ => false,
    }
}

proof fn lemma_sweep_term_exit(s: JobModel, o: OutcomeView, pids: Seq<u32>, idx: nat)
    requires
        job_wf(s),
        idx < pids.len(),
        sweep_before_term(s, pids, idx),
        !sweep_before_term(job_next(s, o), pids, idx),
    ensures
        job_action(s) == (ActionView::Send { pid: pids[idx as int], signal: Signal::Terminate }),
{
}

proof fn lemma_sweep_within_exit(s: JobModel, o: OutcomeView, pids: Seq<u32>, idx: nat)
    requires
        job_wf(s),
        idx < pids.len(),
        sweep_within(s, pids, idx),
        !sweep_within(job_next(s, o), pids, idx),
    ensures
        (job_action(s) == (ActionView::Probe { pid: pids[idx as int] }) && o
            == OutcomeView::Alive(false)) || job_action(s) == (ActionView::Send {
            pid: pids[idx as int],
            signal: Signal::Kill,
        }),
{
}

/// A sweep never leaves a listed process alive unnoticed: when a job that
/// listed the running sidecars finishes (or spawns the service), each
/// process the listing named was, after the listing, sent `SIGTERM`, and
/// either probed and found dead, or sent `SIGKILL`.
pub proof fn law_listed_sidecars_end_gone(
    j: JobModel,
    outs: Seq<OutcomeView>,
    i: nat,
    k: nat,
    out: Seq<char>,
)
    requires
        job_wf(j),
        i < k,
        job_trace(j, outs, i) is ListSidecars,
        outs[i as int] == OutcomeView::Listing(Some(out)),
        job_trace(j, outs, k) is Finish || job_trace(j, outs, k) is Spawn,
    ensures
        forall|p: u32|
            listed_pids(out).contains(p) ==> exists|a: nat|
                i < a < k && ((#[trigger] job_trace(j, outs, a) == (ActionView::Probe { pid: p })
                    && outs[a as int] == OutcomeView::Alive(false)) || job_trace(j, outs, a) == (
                ActionView::Send { pid: p, signal: Signal::Kill })),
        forall|p: u32|
            listed_pids(out).contains(p) ==> exists|a: nat|
                i < a < k && #[trigger] job_trace(j, outs, a) == (ActionView::Send {
                    pid: p,
                    signal: Signal::Terminate,
                }),
{
    let pids = listed_pids(out);
    lemma_after_wf(j, outs, i);
    lemma_after_wf(j, outs, k);
    assert(job_after(j, outs, i + 1) == job_next(job_after(j, outs, i), outs[i as int]));
    assert forall|p: u32| pids.contains(p) implies exists|a: nat|
        i < a < k && ((#[trigger] job_trace(j, outs, a) == (ActionView::Probe { pid: p })
            && outs[a as int] == OutcomeView::Alive(false)) || job_trace(j, outs, a) == (
        ActionView::Send { pid: p, signal: Signal::Kill })) by {
        let idx = choose|w: int| 0 <= w < pids.len() && pids[w] == p;
        let inside = |s: JobModel| sweep_within(s, pids, idx as nat);
        assert(inside(job_after(j, outs, i + 1)));
        assert(!inside(job_after(j, outs, k)));
        lemma_exit(j, outs, i + 1, k, inside);
        let a = choose|a: nat|
            i + 1 <= a < k && inside(job_after(j, outs, a)) && !inside(
                #[trigger] job_after(j, outs, a + 1),
            );
        lemma_after_wf(j, outs, a);
        assert(job_after(j, outs, a + 1) == job_next(job_after(j, outs, a), outs[a as int]));
        lemma_sweep_within_exit(job_after(j, outs, a), outs[a as int], pids, idx as nat);
        assert(pids[idx] == p);
        assert((job_trace(j, outs, a) == (ActionView::Probe { pid: p }) && outs[a as int]
            == OutcomeView::Alive(false)) || job_trace(j, outs, a) == (ActionView::Send {
            pid: p,
            signal: Signal::Kill,
        }));
    }
    assert forall|p: u32| pids.contains(p) implies exists|a: nat|
        i < a < k && #[trigger] job_trace(j, outs, a) == (ActionView::Send {
            pid: p,
            signal: Signal::Terminate,
        }) by {
        let idx = choose|w: int| 0 <= w < pids.len() && pids[w] == p;
        let inside = |s: JobModel| sweep_before_term(s, pids, idx as nat);
        assert(inside(job_after(j, outs, i + 1)));
        assert(!inside(job_after(j, outs, k)));
        lemma_exit(j, outs, i + 1, k, inside);
        let a = choose|a: nat|
            i + 1 <= a < k && inside(job_after(j, outs, a)) && !inside(
                #[trigger] job_after(j, outs, a + 1),
            );
        lemma_after_wf(j, outs, a);
        assert(job_after(j, outs, a + 1) == job_next(job_after(j, outs, a), outs[a as int]));
        lemma_sweep_term_exit(job_after(j, outs, a), outs[a as int], pids, idx as nat);
        assert(job_trace(j, outs, a) == (ActionView::Send { pid: p, signal: Signal::Terminate }));
    }
}

/// A sweep escalates every survivor: whenever a sweep's probe of a listed
/// process (made after the whole list was sent `SIGTERM` and the grace
/// period) answers alive, the very next action sends that process
/// `SIGKILL`.
pub proof fn law_sweep_kills_survivor(j: JobModel, outs: Seq<OutcomeView>, k: nat)
    requires
        job_wf(j),
        sweep_of(job_after(j, outs, k)) matches Some(SweepModel::Check { .. }),
        outs[k as int] == OutcomeView::Alive(true),
    ensures
        job_trace(j, outs, k) is Probe,
        job_trace(j, outs, k + 1) == (ActionView::Send {
            pid: job_trace(j, outs, k)->Probe_pid,
            signal: Signal::Kill,
        }),
{
    lemma_after_wf(j, outs, k);
    assert(job_after(j, outs, k + 1) == job_next(job_after(j, outs, k), outs[k as int]));
}

/// A start waits for the service no longer than its deadline: once the
/// clock answers that the deadline has passed, the start fails with the
/// message that the service was not ready on its port in that time; and it
/// requests the service only right after the clock answered that the
/// deadline has not passed.
pub proof fn law_start_gives_up_at_deadline(
    dir: Seq<char>,
    port: u16,
    outs: Seq<OutcomeView>,
    k: nat,
)
    requires
        job_trace(start_job(dir, port), outs, k) is CheckClock,
    ensures
        outs[k as int] == OutcomeView::Expired(true) ==> job_trace(start_job(dir, port), outs, k + 1)
            == ActionView::Finish(
            FinishView::Failed(
                "服务在 "@ + decimal(30) + "s 内未在端口 "@ + decimal(port as nat) + " 就绪"@,
            ),
        ),
        outs[k as int] == OutcomeView::Expired(false) ==> job_trace(
            start_job(dir, port),
            outs,
            k + 1,
        ) == (ActionView::Fetch { url: "http://127.0.0.1:"@ + decimal(port as nat) + "/"@ }),
{
    let j = start_job(dir, port);
    lemma_after_kind(j, outs, k);
    assert(job_after(j, outs, k + 1) == job_next(job_after(j, outs, k), outs[k as int]));
}

} // verus!
