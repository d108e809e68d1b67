use vstd::prelude::*;

use crate::decimal::{is_digit, lemma_positive_text_reads_back, value_of};
use crate::protocol::{
    begin, describes, fits_all, issued, null_device, outcome, root_dir, verdict, Action, Daemon,
    DaemonizeError, Event, OpenMode, Phase, Stream, Transition, Verdict,
};

verus! {

/// What a full detachment does: where the standard streams go, the working
/// directory, the file-creation mask, the PID file and the new root.
#[derive(Debug, Clone)]
pub struct Daemonize {
    pub chdir: Option<Vec<u8>>,
    pub pid_file: Option<Vec<u8>>,
    pub stdin_file: Option<Vec<u8>>,
    pub stdout_file: Option<Vec<u8>>,
    pub stderr_file: Option<Vec<u8>>,
    pub umask: Option<u32>,
    pub chroot: bool,
    pub append: bool,
}

impl Default for Daemonize {
    fn default() -> (r: Self)
        ensures
            r.chdir is None,
            r.pid_file is None,
            r.stdin_file is None,
            r.stdout_file is None,
            r.stderr_file is None,
            r.umask is None,
            !r.chroot,
            !r.append,
    {
        Daemonize {
            chdir: None,
            pid_file: None,
            stdin_file: None,
            stdout_file: None,
            stderr_file: None,
            umask: None,
            chroot: false,
            append: false,
        }
    }
}

/// Open the file for a stream, put it at the stream's descriptor, release
/// the descriptor it was opened at.
pub open spec fn stream_phases(s: Stream) -> Seq<Phase> {
    seq![Phase::OpenStream(s), Phase::ReplaceStream(s), Phase::CloseStream(s)]
}

impl Daemonize {
    /// The steps of a full detachment, in order.
    pub open spec fn plan_of(self) -> Seq<Phase> {
        seq![Phase::Fork, Phase::NewSession, Phase::Fork] + (if self.umask is Some {
            seq![Phase::SetUmask]
        } else {
            seq![]
        }) + (if self.chdir is Some {
            seq![Phase::ChangeDir]
        } else {
            seq![]
        }) + stream_phases(Stream::Stdin) + stream_phases(Stream::Stdout) + stream_phases(
            Stream::Stderr,
        ) + (if self.pid_file is Some {
            seq![Phase::GetPid, Phase::WritePidFile]
        } else {
            seq![]
        }) + (if self.chdir is Some {
            if self.chroot {
                seq![Phase::Chroot, Phase::ChangeDirToRoot]
            } else {
                seq![Phase::ChangeDir]
            }
        } else {
            seq![]
        })
    }

    /// The steps of a full detachment, in order.
    pub fn plan(&self) -> (r: Vec<Phase>)
        ensures
            r@ == self.plan_of(),
    {
        let mut r: Vec<Phase> = Vec::new();
        r.push(Phase::Fork);
        r.push(Phase::NewSession);
        r.push(Phase::Fork);
        if self.umask.is_some() {
            r.push(Phase::SetUmask);
        }
        if self.chdir.is_some() {
            r.push(Phase::ChangeDir);
        }
        push_stream(&mut r, Stream::Stdin);
        push_stream(&mut r, Stream::Stdout);
        push_stream(&mut r, Stream::Stderr);
        if self.pid_file.is_some() {
            r.push(Phase::GetPid);
            r.push(Phase::WritePidFile);
        }
        if self.chdir.is_some() {
            if self.chroot {
                r.push(Phase::Chroot);
                r.push(Phase::ChangeDirToRoot);
            } else {
                r.push(Phase::ChangeDir);
            }
        }
        assert(r@ =~= self.plan_of());
        r
    }

    /// Starts the detachment: its first step is the first fork.
    pub fn start(self) -> (r: Transition)
        ensures
            issued(r, self, self.plan_of(), 0, 0),
            r is Next,
    {
        let plan = self.plan();
        assert(fits_all(self, plan@));
        begin(self, plan)
    }
}

fn push_stream(r: &mut Vec<Phase>, s: Stream)
    ensures
        final(r)@ == old(r)@ + stream_phases(s),
{
    r.push(Phase::OpenStream(s));
    r.push(Phase::ReplaceStream(s));
    r.push(Phase::CloseStream(s));
    assert(final(r)@ =~= old(r)@ + stream_phases(s));
}

/// Without a working directory, no step changes the working directory or the
/// root, and no event makes the detachment fail with `ChdirFailed`.
pub proof fn lemma_no_chdir_no_directory_change(
    cfg: Daemonize,
    i: int,
    ev: Event,
    a: Action,
    pid: i32,
)
    requires
        cfg.chdir is None,
        0 <= i < cfg.plan_of().len(),
    ensures
        verdict(cfg.plan_of()[i], ev) != Verdict::Fail(DaemonizeError::ChdirFailed),
        describes(a, cfg, cfg.plan_of()[i], pid) ==> !(a is ChangeDir) && !(a is Chroot),
{
    let plan = cfg.plan_of();
    let p = plan[i];
    assert(p != Phase::ChangeDir && p != Phase::ChangeDirToRoot && p != Phase::Chroot);
}

/// The working directory, when one is set, is changed before any standard
/// stream is redirected, and its failure stops the detachment with
/// `ChdirFailed`.
pub proof fn lemma_chdir_before_streams(cfg: Daemonize, i: int)
    requires
        cfg.chdir is Some,
        0 <= i < cfg.plan_of().len(),
        cfg.plan_of()[i] is OpenStream,
    ensures
        exists|j: int| 0 <= j < i && cfg.plan_of()[j] == Phase::ChangeDir,
        verdict(Phase::ChangeDir, Event::Failed) == Verdict::Fail(DaemonizeError::ChdirFailed),
{
    let plan = cfg.plan_of();
    let j: int = if cfg.umask is Some {
        4
    } else {
        3
    };
    assert(plan[j] == Phase::ChangeDir);
    assert(j < i);
}

/// With a new root, the last two steps enter it and move to its top: every
/// stream and the PID file are opened before, by ordinary paths.
pub proof fn lemma_chroot_last(cfg: Daemonize, a: Action, pid: i32)
    requires
        cfg.chroot,
        cfg.chdir is Some,
    ensures
        cfg.plan_of().len() >= 2,
        cfg.plan_of()[cfg.plan_of().len() - 2] == Phase::Chroot,
        cfg.plan_of()[cfg.plan_of().len() - 1] == Phase::ChangeDirToRoot,
        forall|i: int|
            0 <= i < cfg.plan_of().len() - 2 ==> #[trigger] cfg.plan_of()[i] != Phase::Chroot
                && cfg.plan_of()[i] != Phase::ChangeDirToRoot,
        describes(a, cfg, Phase::Chroot, pid) ==> (a matches Action::Chroot(p) && p@
            == cfg.chdir->0@),
        describes(a, cfg, Phase::ChangeDirToRoot, pid) ==> (a matches Action::ChangeDir(p) && p@
            == root_dir()),
{
}

/// Standard output and standard error are opened for appending when `append`
/// is set and emptied first when it is not; standard input is opened read only.
pub proof fn lemma_open_modes(cfg: Daemonize, s: Stream, a: Action, pid: i32)
    ensures
        cfg.plan_of().contains(Phase::OpenStream(s)),
        describes(a, cfg, Phase::OpenStream(s), pid) ==> (a matches Action::OpenStream(_, _, m)
            && m == (if s is Stdin {
            OpenMode::Read
        } else if cfg.append {
            OpenMode::Append
        } else {
            OpenMode::Truncate
        })),
{
    let plan = cfg.plan_of();
    let k: int = 3 + (if cfg.umask is Some {
        1int
    } else {
        0
    }) + (if cfg.chdir is Some {
        1int
    } else {
        0
    }) + match s {
        Stream::Stdin => 0int,
        Stream::Stdout => 3,
        Stream::Stderr => 6,
    };
    assert(plan[k] == Phase::OpenStream(s));
}

/// A stream without a file of its own is redirected to the null device.
pub proof fn lemma_default_stream_is_null(cfg: Daemonize, s: Stream, a: Action, pid: i32)
    requires
        s is Stdin ==> cfg.stdin_file is None,
        s is Stdout ==> cfg.stdout_file is None,
        s is Stderr ==> cfg.stderr_file is None,
    ensures
        cfg.plan_of().contains(Phase::OpenStream(s)),
        cfg.plan_of().contains(Phase::ReplaceStream(s)),
        describes(a, cfg, Phase::OpenStream(s), pid) ==> (a matches Action::OpenStream(_, p, _)
            && p@ == null_device()),
{
    let plan = cfg.plan_of();
    let k: int = 3 + (if cfg.umask is Some {
        1int
    } else {
        0
    }) + (if cfg.chdir is Some {
        1int
    } else {
        0
    }) + match s {
        Stream::Stdin => 0int,
        Stream::Stdout => 3,
        Stream::Stderr => 6,
    };
    assert(plan[k] == Phase::OpenStream(s));
    assert(plan[k + 1] == Phase::ReplaceStream(s));
}

/// With a PID file, the process identifier is asked for right before the file
/// is written; a positive reply goes into the file as its decimal text, which
/// reads back to the identifier.
pub proof fn lemma_pid_file_holds_pid(d: Daemon, n: i32, r: Transition)
    requires
        d.wf(),
        d.plan() == d.config().plan_of(),
        d.plan()[d.at()] == Phase::GetPid,
        n > 0,
        outcome(r, d.config(), d.plan(), d.at(), d.pid(), Event::Pid(n)),
    ensures
        r matches Transition::Next(next, a) && a matches Action::WritePidFile(p, text)
            && d.config().pid_file matches Some(q) && p@ == q@ && text@.len() > 0 && text@[0]
            != 48u8 && (forall|i: int| 0 <= i < text@.len() ==> is_digit(#[trigger] text@[i]))
            && value_of(text@) == n,
{
    let cfg = d.config();
    let plan = cfg.plan_of();
    assert(cfg.pid_file is Some);
    let g: int = 12 + (if cfg.umask is Some {
        1int
    } else {
        0
    }) + (if cfg.chdir is Some {
        1int
    } else {
        0
    });
    assert(plan[g] == Phase::GetPid);
    assert(d.at() == g);
    assert(plan[g + 1] == Phase::WritePidFile);
    lemma_positive_text_reads_back(n as int);
}

} // verus!
