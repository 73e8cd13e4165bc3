use ever_living::lifecycle::{Action, Finish, Job, Outcome};
use ever_living::lifecycle_model::Signal;
use ever_living::listing::parse_pid_listing;

fn run(mut job: Job, outcomes: Vec<Outcome>) -> Vec<Action> {
    let mut actions = Vec::new();
    for o in outcomes {
        actions.push(job.action());
        job = job.advance(&o);
    }
    actions.push(job.action());
    actions
}

fn position(actions: &[Action], wanted: impl Fn(&Action) -> bool) -> Option<usize> {
    actions.iter().position(|a| wanted(a))
}

fn start_outcomes() -> Vec<Outcome> {
    vec![
        Outcome::Located("/bin/el".to_string()),
        Outcome::Done,
        Outcome::Listing(Some("3\n".to_string())),
        Outcome::Done,
        Outcome::Done,
        Outcome::Done,
        Outcome::Alive(true),
        Outcome::Done,
        Outcome::Done,
        Outcome::PidFile(None),
        Outcome::Done,
        Outcome::Done,
        Outcome::Spawned(31),
        Outcome::Done,
        Outcome::Done,
        Outcome::Done,
        Outcome::Expired(false),
        Outcome::Status(Some(204)),
        Outcome::Done,
    ]
}

#[test]
fn start_lists_and_reads_pid_file_before_spawning() {
    let a = run(Job::start("/d", 7070), start_outcomes());
    let spawn = position(&a, |x| matches!(x, Action::Spawn { .. })).unwrap();
    let list = position(&a, |x| matches!(x, Action::ListSidecars)).unwrap();
    let read = position(&a, |x| matches!(x, Action::ReadPidFile { .. })).unwrap();
    assert!(list < spawn);
    assert!(read < spawn);
}

#[test]
fn start_result_names_spawned_process_and_default_port() {
    let a = run(Job::start("/d", 7070), start_outcomes());
    assert_eq!(a.last(), Some(&Action::Finish(Finish::Started(31, 7070))));
    let write = position(&a, |x| {
        *x == Action::WritePidFile { path: "/d/sidecar.pid".to_string(), text: "31".to_string() }
    });
    assert!(write.is_some());
}

#[test]
fn kill_follows_terminate_and_an_alive_probe() {
    let a = run(Job::start("/d", 7070), start_outcomes());
    let kill = position(&a, |x| *x == Action::Send { pid: 3, signal: Signal::Kill }).unwrap();
    let term = position(&a, |x| *x == Action::Send { pid: 3, signal: Signal::Terminate }).unwrap();
    assert!(term < kill);
    assert_eq!(a[kill - 1], Action::Probe { pid: 3 });
}

#[test]
fn stop_sweeps_after_the_pid_file_is_settled() {
    let a = run(
        Job::stop("/d"),
        vec![Outcome::PidFile(Some("9".to_string())), Outcome::Alive(false), Outcome::Done, Outcome::Listing(None)],
    );
    let remove = position(&a, |x| matches!(x, Action::RemovePidFile { .. })).unwrap();
    let list = position(&a, |x| matches!(x, Action::ListSidecars)).unwrap();
    assert!(remove < list);
    assert_eq!(a.last(), Some(&Action::Finish(Finish::Stopped)));
}

#[test]
fn sweep_counts_and_terminates_every_listed_process() {
    let listing = "5\n6\n5\n7\n";
    let listed = parse_pid_listing(listing);
    let mut outs = vec![Outcome::Listing(Some(listing.to_string())), Outcome::Done];
    for _ in 0..listed.len() + 1 {
        outs.push(Outcome::Done);
    }
    for _ in 0..listed.len() {
        outs.push(Outcome::Alive(false));
    }
    let a = run(Job::kill_all_sidecars(), outs);
    assert_eq!(a.last(), Some(&Action::Finish(Finish::Swept(listed.len()))));
    for p in listed {
        assert!(a.contains(&Action::Send { pid: p, signal: Signal::Terminate }));
    }
}

#[test]
fn start_terminates_every_listed_sidecar_before_spawning() {
    let a = run(Job::start("/d", 7070), start_outcomes());
    let spawn = position(&a, |x| matches!(x, Action::Spawn { .. })).unwrap();
    let term = position(&a, |x| *x == Action::Send { pid: 3, signal: Signal::Terminate }).unwrap();
    assert!(term < spawn);
}

#[test]
fn start_terminates_a_live_stale_process_before_spawning() {
    let outs = vec![
        Outcome::Located("/bin/el".to_string()),
        Outcome::Done,
        Outcome::Listing(None),
        Outcome::PidFile(Some("44".to_string())),
        Outcome::Alive(true),
        Outcome::Done,
        Outcome::Done,
        Outcome::Done,
        Outcome::Alive(false),
        Outcome::Done,
        Outcome::Done,
        Outcome::Done,
    ];
    let a = run(Job::start("/d", 7070), outs);
    let spawn = position(&a, |x| matches!(x, Action::Spawn { .. })).unwrap();
    let term = position(&a, |x| *x == Action::Send { pid: 44, signal: Signal::Terminate }).unwrap();
    let remove = position(&a, |x| matches!(x, Action::RemovePidFile { .. })).unwrap();
    assert!(term < remove && remove < spawn);
}

#[test]
fn stop_terminates_the_recorded_process_before_sweeping() {
    let a = run(
        Job::stop("/d"),
        vec![
            Outcome::PidFile(Some("61".to_string())),
            Outcome::Alive(true),
            Outcome::Done,
            Outcome::Alive(false),
            Outcome::Alive(false),
            Outcome::Done,
            Outcome::Done,
        ],
    );
    let term = position(&a, |x| *x == Action::Send { pid: 61, signal: Signal::Terminate }).unwrap();
    let list = position(&a, |x| matches!(x, Action::ListSidecars)).unwrap();
    assert!(term < list);
    assert_eq!(a[1], Action::Probe { pid: 61 });
}

#[test]
fn second_stop_without_pid_file_only_sweeps_and_succeeds() {
    let a = run(
        Job::stop("/d"),
        vec![Outcome::PidFile(None), Outcome::Listing(Some("8\n".to_string())), Outcome::Done, Outcome::Done, Outcome::Done, Outcome::Alive(false)],
    );
    let list = position(&a, |x| matches!(x, Action::ListSidecars)).unwrap();
    let first_send = position(&a, |x| matches!(x, Action::Send { .. })).unwrap();
    assert!(list < first_send);
    assert_eq!(a.last(), Some(&Action::Finish(Finish::Stopped)));
}

#[test]
fn stop_with_unreadable_pid_file_only_sweeps_and_succeeds() {
    let a = run(Job::stop("/d"), vec![Outcome::PidFile(Some("garbage".to_string())), Outcome::Listing(None)]);
    assert_eq!(
        a,
        vec![
            Action::ReadPidFile { path: "/d/sidecar.pid".to_string() },
            Action::ListSidecars,
            Action::Finish(Finish::Stopped),
        ]
    );
}

#[test]
fn stop_after_start_deals_with_the_started_process() {
    let started = run(Job::start("/d", 7070), start_outcomes());
    let written = started
        .iter()
        .find_map(|a| match a {
            Action::WritePidFile { text, .. } => Some(text.clone()),
            _ => None,
        })
        .unwrap();
    assert_eq!(started.last(), Some(&Action::Finish(Finish::Started(31, 7070))));
    let mut outs = vec![Outcome::PidFile(Some(written)), Outcome::Alive(true), Outcome::Done];
    for _ in 0..6 {
        outs.push(Outcome::Alive(true));
        outs.push(Outcome::Done);
    }
    for o in [Outcome::Alive(true), Outcome::Done, Outcome::Done, Outcome::Done, Outcome::Listing(None)] {
        outs.push(o);
    }
    let stopped = run(Job::stop("/d"), outs);
    assert_eq!(stopped[1], Action::Probe { pid: 31 });
    assert!(stopped.contains(&Action::Send { pid: 31, signal: Signal::Kill }));
    assert!(stopped.contains(&Action::RemovePidFile { path: "/d/sidecar.pid".to_string() }));
    assert_eq!(stopped.last(), Some(&Action::Finish(Finish::Stopped)));
}
