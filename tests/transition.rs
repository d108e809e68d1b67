use daemonize::decimal::decimal_text;
use daemonize::not_unix;
use daemonize::protocol::{Action, DaemonizeError, Event, OpenMode, Phase, Stream, Transition};
use daemonize::unix::Daemonize;

fn path(s: &str) -> Vec<u8> {
    s.as_bytes().to_vec()
}

/// The reply a healthy system gives to an action, seen from the process
/// that goes on.
fn healthy(a: &Action) -> Event {
    match a {
        Action::Fork => Event::Child,
        Action::GetPid => Event::Pid(4821),
        _ => Event::Done,
    }
}

/// Drives a transition to its end, answering each action with `reply`.
/// Returns the actions asked for and how it ended: `None` for an exit.
fn drive(
    mut t: Transition,
    reply: &dyn Fn(&Action) -> Event,
) -> (Vec<Action>, Option<Result<(), DaemonizeError>>) {
    let mut seen = Vec::new();
    loop {
        match t {
            Transition::Next(d, a) => {
                let ev = reply(&a);
                seen.push(a);
                t = d.advance(ev);
            }
            Transition::Exit => return (seen, None),
            Transition::Finish(r) => return (seen, Some(r)),
        }
    }
}

fn null() -> Vec<u8> {
    path("/dev/null")
}

#[test]
fn pid_file_scenario() {
    let cfg = Daemonize { pid_file: Some(path("/tmp/d.pid")), ..Default::default() };
    let (seen, end) = drive(cfg.start(), &healthy);
    assert_eq!(end, Some(Ok(())));
    assert_eq!(
        seen,
        vec![
            Action::Fork,
            Action::NewSession,
            Action::Fork,
            Action::OpenStream(Stream::Stdin, null(), OpenMode::Read),
            Action::ReplaceStream(Stream::Stdin),
            Action::CloseStream(Stream::Stdin),
            Action::OpenStream(Stream::Stdout, null(), OpenMode::Truncate),
            Action::ReplaceStream(Stream::Stdout),
            Action::CloseStream(Stream::Stdout),
            Action::OpenStream(Stream::Stderr, null(), OpenMode::Truncate),
            Action::ReplaceStream(Stream::Stderr),
            Action::CloseStream(Stream::Stderr),
            Action::GetPid,
            Action::WritePidFile(path("/tmp/d.pid"), path("4821")),
        ]
    );
}

#[test]
fn parent_of_first_fork_exits() {
    let cfg = Daemonize::default();
    let (seen, end) = drive(cfg.start(), &|a: &Action| match a {
        Action::Fork => Event::Parent,
        _ => Event::Done,
    });
    assert_eq!(seen, vec![Action::Fork]);
    assert_eq!(end, None);
}

#[test]
fn session_leader_exits_after_second_fork() {
    let forks = std::cell::Cell::new(0);
    let (seen, end) = drive(Daemonize::default().start(), &|a: &Action| match a {
        Action::Fork => {
            forks.set(forks.get() + 1);
            if forks.get() == 1 { Event::Child } else { Event::Parent }
        }
        _ => Event::Done,
    });
    assert_eq!(forks.get(), 2);
    assert_eq!(seen, vec![Action::Fork, Action::NewSession, Action::Fork]);
    assert_eq!(end, None);
}

#[test]
fn missing_directory_stops_before_redirection() {
    let cfg = Daemonize { chdir: Some(path("/nonexistent")), ..Default::default() };
    let (seen, end) = drive(cfg.start(), &|a: &Action| match a {
        Action::ChangeDir(_) => Event::Failed,
        other => healthy(other),
    });
    assert_eq!(end, Some(Err(DaemonizeError::ChdirFailed)));
    assert_eq!(seen.last(), Some(&Action::ChangeDir(path("/nonexistent"))));
    assert!(!seen.iter().any(|a| matches!(a, Action::OpenStream(..))));
}

#[test]
fn fallback_missing_directory_fails_first() {
    let cfg = not_unix::Daemonize { chdir: Some(path("/nonexistent")), ..Default::default() };
    let (seen, end) = drive(cfg.start(), &|_a: &Action| Event::Failed);
    assert_eq!(seen, vec![Action::ChangeDir(path("/nonexistent"))]);
    assert_eq!(end, Some(Err(DaemonizeError::ChdirFailed)));
}

#[test]
fn fallback_writes_pid_file() {
    let cfg = not_unix::Daemonize {
        chdir: Some(path("/srv")),
        pid_file: Some(path("/tmp/d.pid")),
        stdout_file: Some(path("/tmp/out")),
        chroot: true,
        ..Default::default()
    };
    let (seen, end) = drive(cfg.start(), &healthy);
    assert_eq!(end, Some(Ok(())));
    assert_eq!(
        seen,
        vec![
            Action::ChangeDir(path("/srv")),
            Action::GetPid,
            Action::WritePidFile(path("/tmp/d.pid"), path("4821")),
        ]
    );
}

#[test]
fn fallback_with_nothing_set_is_done_at_once() {
    let (seen, end) = drive(not_unix::Daemonize::default().start(), &healthy);
    assert!(seen.is_empty());
    assert_eq!(end, Some(Ok(())));
}

#[test]
fn no_directory_means_no_directory_change() {
    let cfg = Daemonize {
        pid_file: Some(path("/tmp/d.pid")),
        umask: Some(0o027),
        chroot: true,
        ..Default::default()
    };
    let (seen, end) = drive(cfg.start(), &healthy);
    assert_eq!(end, Some(Ok(())));
    assert!(!seen.iter().any(|a| matches!(a, Action::ChangeDir(_) | Action::Chroot(_))));
    assert_eq!(seen[3], Action::SetUmask(0o027));
}

#[test]
fn chroot_comes_last() {
    let cfg = Daemonize {
        chdir: Some(path("/srv/jail")),
        pid_file: Some(path("/run/d.pid")),
        chroot: true,
        ..Default::default()
    };
    let (seen, end) = drive(cfg.start(), &healthy);
    assert_eq!(end, Some(Ok(())));
    let n = seen.len();
    assert_eq!(seen[3], Action::ChangeDir(path("/srv/jail")));
    assert_eq!(seen[n - 2], Action::Chroot(path("/srv/jail")));
    assert_eq!(seen[n - 1], Action::ChangeDir(path("/")));
    assert_eq!(seen[n - 3], Action::WritePidFile(path("/run/d.pid"), path("4821")));
}

#[test]
fn without_chroot_directory_is_changed_again() {
    let cfg = Daemonize { chdir: Some(path("/srv")), ..Default::default() };
    let (seen, end) = drive(cfg.start(), &healthy);
    assert_eq!(end, Some(Ok(())));
    assert_eq!(seen[3], Action::ChangeDir(path("/srv")));
    assert_eq!(seen.last(), Some(&Action::ChangeDir(path("/srv"))));
    assert!(!seen.iter().any(|a| matches!(a, Action::Chroot(_))));
}

#[test]
fn nul_in_new_root_is_an_encoding_error() {
    let cfg = Daemonize { chdir: Some(b"/srv\0x".to_vec()), chroot: true, ..Default::default() };
    let (seen, end) = drive(cfg.start(), &healthy);
    assert_eq!(end, Some(Err(DaemonizeError::PathEncodingFailed)));
    assert_eq!(seen.last(), Some(&Action::CloseStream(Stream::Stderr)));
}

#[test]
fn append_mode_for_output_streams() {
    let cfg = Daemonize {
        stdin_file: Some(path("/etc/input")),
        stdout_file: Some(path("/var/log/out")),
        stderr_file: Some(path("/var/log/err")),
        append: true,
        ..Default::default()
    };
    let (seen, _) = drive(cfg.start(), &healthy);
    assert_eq!(seen[3], Action::OpenStream(Stream::Stdin, path("/etc/input"), OpenMode::Read));
    assert_eq!(seen[6], Action::OpenStream(Stream::Stdout, path("/var/log/out"), OpenMode::Append));
    assert_eq!(seen[9], Action::OpenStream(Stream::Stderr, path("/var/log/err"), OpenMode::Append));
}

#[test]
fn truncate_mode_without_append() {
    let cfg = Daemonize { stdout_file: Some(path("/var/log/out")), ..Default::default() };
    let (seen, _) = drive(cfg.start(), &healthy);
    assert_eq!(seen[6], Action::OpenStream(Stream::Stdout, path("/var/log/out"), OpenMode::Truncate));
    assert_eq!(seen[9], Action::OpenStream(Stream::Stderr, null(), OpenMode::Truncate));
}

fn failing_at(target: fn(&Action) -> bool, ev: Event) -> Option<Result<(), DaemonizeError>> {
    let cfg = Daemonize {
        chdir: Some(path("/srv")),
        pid_file: Some(path("/run/d.pid")),
        chroot: true,
        ..Default::default()
    };
    drive(cfg.start(), &|a: &Action| if target(a) { ev } else { healthy(a) }).1
}

#[test]
fn each_failure_has_its_error() {
    assert_eq!(failing_at(|a| matches!(a, Action::Fork), Event::Failed), Some(Err(DaemonizeError::ForkFailed)));
    assert_eq!(
        failing_at(|a| matches!(a, Action::OpenStream(Stream::Stdin, ..)), Event::Failed),
        Some(Err(DaemonizeError::StdinOpenFailed))
    );
    assert_eq!(
        failing_at(|a| matches!(a, Action::OpenStream(Stream::Stdout, ..)), Event::Failed),
        Some(Err(DaemonizeError::StdoutOpenFailed))
    );
    assert_eq!(
        failing_at(|a| matches!(a, Action::OpenStream(Stream::Stderr, ..)), Event::Failed),
        Some(Err(DaemonizeError::StderrOpenFailed))
    );
    assert_eq!(
        failing_at(|a| matches!(a, Action::ReplaceStream(Stream::Stdout)), Event::Failed),
        Some(Err(DaemonizeError::DescriptorReplaceFailed(Stream::Stdout)))
    );
    assert_eq!(failing_at(|a| matches!(a, Action::GetPid), Event::Pid(-1)), Some(Err(DaemonizeError::GetPidFailed)));
    assert_eq!(
        failing_at(|a| matches!(a, Action::WritePidFile(..)), Event::Failed),
        Some(Err(DaemonizeError::PidFileCreateFailed))
    );
    assert_eq!(
        failing_at(|a| matches!(a, Action::WritePidFile(..)), Event::WriteFailed),
        Some(Err(DaemonizeError::PidFileWriteFailed))
    );
    assert_eq!(failing_at(|a| matches!(a, Action::Chroot(_)), Event::Failed), Some(Err(DaemonizeError::ChrootFailed)));
    assert_eq!(
        failing_at(|a| *a == Action::ChangeDir(path("/")), Event::Failed),
        Some(Err(DaemonizeError::ChdirFailed))
    );
}

#[test]
fn best_effort_steps_ignore_failure() {
    let cfg = Daemonize { umask: Some(0o022), ..Default::default() };
    let (seen, end) = drive(cfg.start(), &|a: &Action| match a {
        Action::NewSession | Action::SetUmask(_) | Action::CloseStream(_) => Event::Failed,
        other => healthy(other),
    });
    assert_eq!(end, Some(Ok(())));
    assert_eq!(seen.len(), 13);
}

#[test]
fn pending_names_the_awaited_step() {
    match Daemonize::default().start() {
        Transition::Next(d, _) => assert_eq!(d.pending(), Phase::Fork),
        _ => panic!("a full detachment starts with a fork"),
    }
}

#[test]
fn plan_lists_the_steps() {
    let cfg = Daemonize { umask: Some(0o077), chdir: Some(path("/srv")), ..Default::default() };
    let plan = cfg.plan();
    assert_eq!(plan.len(), 3 + 1 + 1 + 9 + 1);
    assert_eq!(plan[3], Phase::SetUmask);
    assert_eq!(plan[4], Phase::ChangeDir);
    assert_eq!(plan[14], Phase::ChangeDir);
}

#[test]
fn decimal_text_of_integers() {
    assert_eq!(decimal_text(4821), path("4821"));
    assert_eq!(decimal_text(0), path("0"));
    assert_eq!(decimal_text(7), path("7"));
    assert_eq!(decimal_text(-1), path("-1"));
    assert_eq!(decimal_text(i32::MAX), path("2147483647"));
    assert_eq!(decimal_text(i32::MIN), path("-2147483648"));
    for n in [1, 9, 10, 99, 100, 12345, 65535] {
        assert_eq!(decimal_text(n), format!("{}", n).into_bytes());
    }
}

#[test]
fn descriptors_of_streams() {
    assert_eq!(Stream::Stdin.descriptor(), 0);
    assert_eq!(Stream::Stdout.descriptor(), 1);
    assert_eq!(Stream::Stderr.descriptor(), 2);
}
