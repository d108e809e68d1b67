use vstd::prelude::*;

use crate::decimal::{decimal, decimal_text};
use crate::unix::Daemonize;

verus! {

/// One of the three standard streams.
#[derive(Debug, Clone, Copy, PartialEq, Eq, Structural)]
pub enum Stream {
    Stdin,
    Stdout,
    Stderr,
}

impl Stream {
    /// The descriptor number the stream lives at.
    pub fn descriptor(&self) -> (r: i32)
        ensures
            r == descriptor_of(*self),
    {
        match self {
            Stream::Stdin => 0,
            Stream::Stdout => 1,
            Stream::Stderr => 2,
        }
    }
}

pub open spec fn descriptor_of(s: Stream) -> i32 {
    match s {
        Stream::Stdin => 0,
        Stream::Stdout => 1,
        Stream::Stderr => 2,
    }
}

/// How a replacement file for a standard stream is opened.
#[derive(Debug, Clone, Copy, PartialEq, Eq, Structural)]
pub enum OpenMode {
    /// Read only.
    Read,
    /// Write only, created if absent, emptied first.
    Truncate,
    /// Write only, created if absent, written after what it holds.
    Append,
}

/// Why a daemonization stopped.
#[derive(Debug, Clone, Copy, PartialEq, Eq, Structural)]
pub enum DaemonizeError {
    ForkFailed,
    ChdirFailed,
    StdinOpenFailed,
    StdoutOpenFailed,
    StderrOpenFailed,
    DescriptorReplaceFailed(Stream),
    GetPidFailed,
    PidFileCreateFailed,
    PidFileWriteFailed,
    ChrootFailed,
    PathEncodingFailed,
}

/// One step of the transition, without the values it works on.
#[derive(Debug, Clone, Copy, PartialEq, Eq, Structural)]
pub enum Phase {
    Fork,
    NewSession,
    SetUmask,
    ChangeDir,
    OpenStream(Stream),
    ReplaceStream(Stream),
    CloseStream(Stream),
    GetPid,
    WritePidFile,
    Chroot,
    ChangeDirToRoot,
}

/// An operating-system operation that the caller is asked to perform.
#[derive(Debug, Clone, PartialEq, Eq)]
pub enum Action {
    /// Duplicate the process.
    Fork,
    /// Start a new session with this process as its leader.
    NewSession,
    /// Set the file-creation mask.
    SetUmask(u32),
    /// Change the working directory.
    ChangeDir(Vec<u8>),
    /// Open a file that is to become a standard stream.
    OpenStream(Stream, Vec<u8>, OpenMode),
    /// Put the file just opened at the stream's descriptor.
    ReplaceStream(Stream),
    /// Release the descriptor the file was opened at.
    CloseStream(Stream),
    /// Ask for the process identifier.
    GetPid,
    /// Create or empty the file at the path, then write the text to it.
    WritePidFile(Vec<u8>, Vec<u8>),
    /// Make the path the root of the file system.
    Chroot(Vec<u8>),
}

/// What came of the last action.
#[derive(Debug, Clone, Copy, PartialEq, Eq, Structural)]
pub enum Event {
    /// It completed.
    Done,
    /// It failed.
    Failed,
    /// A fork returned in the new process.
    Child,
    /// A fork returned in the original process.
    Parent,
    /// The process identifier query returned this value.
    Pid(i32),
    /// The PID file was created, but writing to it failed.
    WriteFailed,
}

/// How a step ended, once its event is known.
#[derive(Debug, Clone, Copy, PartialEq, Eq, Structural)]
pub enum Verdict {
    /// Go on with the next step.
    Proceed,
    /// This process is not the one that goes on: it ends at once.
    Leave,
    /// Stop with this error.
    Fail(DaemonizeError),
}

/// "/dev/null"
pub open spec fn null_device() -> Seq<u8> {
    seq![47u8, 100u8, 101u8, 118u8, 47u8, 110u8, 117u8, 108u8, 108u8]
}

/// "/"
pub open spec fn root_dir() -> Seq<u8> {
    seq![47u8]
}

pub open spec fn open_error(s: Stream) -> DaemonizeError {
    match s {
        Stream::Stdin => DaemonizeError::StdinOpenFailed,
        Stream::Stdout => DaemonizeError::StdoutOpenFailed,
        Stream::Stderr => DaemonizeError::StderrOpenFailed,
    }
}

/// The verdict on a step from the event that it brought.
pub open spec fn verdict(phase: Phase, ev: Event) -> Verdict {
    match phase {
        Phase::Fork => match ev {
            Event::Child => Verdict::Proceed,
            Event::Parent => Verdict::Leave,
            _ => Verdict::Fail(DaemonizeError::ForkFailed),
        },
        Phase::NewSession | Phase::SetUmask | Phase::CloseStream(_) => Verdict::Proceed,
        Phase::ChangeDir | Phase::ChangeDirToRoot => if ev is Done {
            Verdict::Proceed
        } else {
            Verdict::Fail(DaemonizeError::ChdirFailed)
        },
        Phase::OpenStream(s) => if ev is Done {
            Verdict::Proceed
        } else {
            Verdict::Fail(open_error(s))
        },
        Phase::ReplaceStream(s) => if ev is Done {
            Verdict::Proceed
        } else {
            Verdict::Fail(DaemonizeError::DescriptorReplaceFailed(s))
        },
        Phase::GetPid => if ev matches Event::Pid(n) && n != -1 {
            Verdict::Proceed
        } else {
            Verdict::Fail(DaemonizeError::GetPidFailed)
        },
        Phase::WritePidFile => match ev {
            Event::Done => Verdict::Proceed,
            Event::WriteFailed => Verdict::Fail(DaemonizeError::PidFileWriteFailed),
            _ => Verdict::Fail(DaemonizeError::PidFileCreateFailed),
        },
        Phase::Chroot => if ev is Done {
            Verdict::Proceed
        } else {
            Verdict::Fail(DaemonizeError::ChrootFailed)
        },
    }
}

/// The file a stream is redirected to.
pub open spec fn stream_path(cfg: Daemonize, s: Stream) -> Seq<u8> {
    let f = match s {
        Stream::Stdin => cfg.stdin_file,
        Stream::Stdout => cfg.stdout_file,
        Stream::Stderr => cfg.stderr_file,
    };
    match f {
        Some(p) => p@,
        None => null_device(),
    }
}

pub open spec fn stream_mode(cfg: Daemonize, s: Stream) -> OpenMode {
    match s {
        Stream::Stdin => OpenMode::Read,
        _ => if cfg.append {
            OpenMode::Append
        } else {
            OpenMode::Truncate
        },
    }
}

/// Whether the configuration holds the value that a step works on.
pub open spec fn fits(cfg: Daemonize, phase: Phase) -> bool {
    match phase {
        Phase::SetUmask => cfg.umask is Some,
        Phase::ChangeDir | Phase::Chroot => cfg.chdir is Some,
        Phase::WritePidFile => cfg.pid_file is Some,
        _ => true,
    }
}

pub open spec fn fits_all(cfg: Daemonize, plan: Seq<Phase>) -> bool {
    forall|i: int| 0 <= i < plan.len() ==> fits(cfg, #[trigger] plan[i])
}

/// The action that carries out a step, with `pid` the process identifier
/// learnt so far.
pub open spec fn describes(a: Action, cfg: Daemonize, phase: Phase, pid: i32) -> bool {
    match phase {
        Phase::Fork => a is Fork,
        Phase::NewSession => a is NewSession,
        Phase::SetUmask => a matches Action::SetUmask(m) && cfg.umask == Some(m),
        Phase::ChangeDir => a matches Action::ChangeDir(p) && cfg.chdir matches Some(d) && p@
            == d@,
        Phase::ChangeDirToRoot => a matches Action::ChangeDir(p) && p@ == root_dir(),
        Phase::OpenStream(s) => a matches Action::OpenStream(t, p, m) && t == s && p@
            == stream_path(cfg, s) && m == stream_mode(cfg, s),
        Phase::ReplaceStream(s) => a matches Action::ReplaceStream(t) && t == s,
        Phase::CloseStream(s) => a matches Action::CloseStream(t) && t == s,
        Phase::GetPid => a is GetPid,
        Phase::WritePidFile => a matches Action::WritePidFile(p, text) && cfg.pid_file matches Some(
            q,
        ) && p@ == q@ && text@ == decimal(pid as int),
        Phase::Chroot => a matches Action::Chroot(p) && cfg.chdir matches Some(d) && p@ == d@,
    }
}

/// The transition that starts step `i` of `plan`: the step's action, or an
/// error when the new root cannot be handed to the system as a C string.
pub open spec fn issued(r: Transition, cfg: Daemonize, plan: Seq<Phase>, i: int, pid: i32) -> bool {
    if plan[i] == Phase::Chroot && unencodable_root(cfg) {
        r matches Transition::Finish(Err(e)) && e == DaemonizeError::PathEncodingFailed
    } else {
        &&& r matches Transition::Next(n, a)
        &&& n.wf()
        &&& n.config() == cfg
        &&& n.plan() == plan
        &&& n.at() == i
        &&& n.pid() == pid
        &&& describes(a, cfg, plan[i], pid)
    }
}

/// Whether the new root holds a NUL byte, which no C string can carry.
pub open spec fn unencodable_root(cfg: Daemonize) -> bool {
    cfg.chdir matches Some(d) && d@.contains(0u8)
}

/// The process identifier known after step `phase` brought `ev`.
pub open spec fn pid_after(phase: Phase, ev: Event, pid: i32) -> i32 {
    match ev {
        Event::Pid(n) => if phase == Phase::GetPid {
            n
        } else {
            pid
        },
        _ => pid,
    }
}

/// What follows once step `at` of `plan` brought `ev`.
pub open spec fn outcome(
    r: Transition,
    cfg: Daemonize,
    plan: Seq<Phase>,
    at: int,
    pid: i32,
    ev: Event,
) -> bool {
    match verdict(plan[at], ev) {
        Verdict::Leave => r is Exit,
        Verdict::Fail(e) => r matches Transition::Finish(Err(x)) && x == e,
        Verdict::Proceed => if at + 1 == plan.len() {
            r matches Transition::Finish(Ok(()))
        } else {
            issued(r, cfg, plan, at + 1, pid_after(plan[at], ev, pid))
        },
    }
}

/// A transition in progress: the steps planned, and the one whose event is
/// awaited.
#[derive(Debug)]
pub struct Daemon {
    config: Daemonize,
    plan: Vec<Phase>,
    at: usize,
    pid: i32,
}

/// What the caller does next.
#[derive(Debug)]
pub enum Transition {
    /// Perform the action and hand its event to the daemon.
    Next(Daemon, Action),
    /// End this process at once, skipping all cleanup, with status 0.
    Exit,
    /// The transition is over, with this result.
    Finish(Result<(), DaemonizeError>),
}

impl Daemon {
    pub closed spec fn config(&self) -> Daemonize {
        self.config
    }

    pub closed spec fn plan(&self) -> Seq<Phase> {
        self.plan@
    }

    pub closed spec fn at(&self) -> int {
        self.at as int
    }

    pub closed spec fn pid(&self) -> i32 {
        self.pid
    }

    pub open spec fn wf(&self) -> bool {
        &&& 0 <= self.at() < self.plan().len()
        &&& fits_all(self.config(), self.plan())
    }

    /// The step whose event is awaited.
    pub fn pending(&self) -> (r: Phase)
        requires
            self.wf(),
        ensures
            r == self.plan()[self.at()],
    {
        self.plan[self.at]
    }

    /// Takes the event of the pending step and says what follows.
    pub fn advance(self, ev: Event) -> (r: Transition)
        requires
            self.wf(),
        ensures
            outcome(r, self.config(), self.plan(), self.at(), self.pid(), ev),
    {
        let phase = self.plan[self.at];
        match judge(phase, ev) {
            Verdict::Leave => Transition::Exit,
            Verdict::Fail(e) => Transition::Finish(Err(e)),
            Verdict::Proceed => {
                let pid = match ev {
                    Event::Pid(n) if matches!(phase, Phase::GetPid) => n,
                    _ => self.pid,
                };
                let len = self.plan.len();
                if self.at + 1 == len {
                    Transition::Finish(Ok(()))
                } else {
                    let next = self.at + 1;
                    issue(self.config, self.plan, next, pid)
                }
            },
        }
    }
}

/// Starts the steps of `plan` on `config`.
pub fn begin(config: Daemonize, plan: Vec<Phase>) -> (r: Transition)
    requires
        fits_all(config, plan@),
    ensures
        plan@.len() == 0 ==> r matches Transition::Finish(Ok(())),
        plan@.len() > 0 ==> issued(r, config, plan@, 0, 0),
{
    if plan.len() == 0 {
        Transition::Finish(Ok(()))
    } else {
        issue(config, plan, 0, 0)
    }
}

fn judge(phase: Phase, ev: Event) -> (r: Verdict)
    ensures
        r == verdict(phase, ev),
{
    match phase {
        Phase::Fork => match ev {
            Event::Child => Verdict::Proceed,
            Event::Parent => Verdict::Leave,
            _ => Verdict::Fail(DaemonizeError::ForkFailed),
        },
        Phase::NewSession | Phase::SetUmask | Phase::CloseStream(_) => Verdict::Proceed,
        Phase::ChangeDir | Phase::ChangeDirToRoot => match ev {
            Event::Done => Verdict::Proceed,
            _ => Verdict::Fail(DaemonizeError::ChdirFailed),
        },
        Phase::OpenStream(s) => match ev {
            Event::Done => Verdict::Proceed,
            _ => Verdict::Fail(
                match s {
                    Stream::Stdin => DaemonizeError::StdinOpenFailed,
                    Stream::Stdout => DaemonizeError::StdoutOpenFailed,
                    Stream::Stderr => DaemonizeError::StderrOpenFailed,
                },
            ),
        },
        Phase::ReplaceStream(s) => match ev {
            Event::Done => Verdict::Proceed,
            _ => Verdict::Fail(DaemonizeError::DescriptorReplaceFailed(s)),
        },
        Phase::GetPid => match ev {
            Event::Pid(n) if n != -1 => Verdict::Proceed,
            _ => Verdict::Fail(DaemonizeError::GetPidFailed),
        },
        Phase::WritePidFile => match ev {
            Event::Done => Verdict::Proceed,
            Event::WriteFailed => Verdict::Fail(DaemonizeError::PidFileWriteFailed),
            _ => Verdict::Fail(DaemonizeError::PidFileCreateFailed),
        },
        Phase::Chroot => match ev {
            Event::Done => Verdict::Proceed,
            _ => Verdict::Fail(DaemonizeError::ChrootFailed),
        },
    }
}

fn copy_path(p: &Vec<u8>) -> (r: Vec<u8>)
    ensures
        r@ == p@,
{
    let mut r: Vec<u8> = Vec::new();
    let mut i: usize = 0;
    while i < p.len()
        invariant
            i <= p@.len(),
            r@ == p@.subrange(0, i as int),
        decreases p@.len() - i,
    {
        r.push(p[i]);
        i = i + 1;
        assert(r@ =~= p@.subrange(0, i as int));
    }
    assert(p@ =~= p@.subrange(0, p@.len() as int));
    r
}

fn contains_nul(p: &Vec<u8>) -> (r: bool)
    ensures
        r == p@.contains(0u8),
{
    let mut i: usize = 0;
    while i < p.len()
        invariant
            i <= p@.len(),
            forall|j: int| 0 <= j < i ==> p@[j] != 0u8,
        decreases p@.len() - i,
    {
        if p[i] == 0u8 {
            assert(p@[i as int] == 0u8);
            return true;
        }
        i = i + 1;
    }
    false
}

fn stream_file(config: &Daemonize, s: Stream) -> (r: Vec<u8>)
    ensures
        r@ == stream_path(*config, s),
{
    let f = match s {
        Stream::Stdin => &config.stdin_file,
        Stream::Stdout => &config.stdout_file,
        Stream::Stderr => &config.stderr_file,
    };
    match f {
        Some(p) => copy_path(p),
        None => {
            let r: Vec<u8> = vec![47u8, 100u8, 101u8, 118u8, 47u8, 110u8, 117u8, 108u8, 108u8];
            assert(r@ =~= null_device());
            r
        },
    }
}

fn action_for(config: &Daemonize, phase: Phase, pid: i32) -> (r: Action)
    requires
        fits(*config, phase),
    ensures
        describes(r, *config, phase, pid),
{
    // The `None` arms below cannot be reached: `fits` rules them out.
    match phase {
        Phase::Fork => Action::Fork,
        Phase::NewSession => Action::NewSession,
        Phase::SetUmask => match config.umask {
            Some(m) => Action::SetUmask(m),
            None => Action::SetUmask(0),
        },
        Phase::ChangeDir => match &config.chdir {
            Some(d) => Action::ChangeDir(copy_path(d)),
            None => Action::Fork,
        },
        Phase::ChangeDirToRoot => {
            let root: Vec<u8> = vec![47u8];
            assert(root@ =~= root_dir());
            Action::ChangeDir(root)
        },
        Phase::OpenStream(s) => {
            let mode = match s {
                Stream::Stdin => OpenMode::Read,
                _ => if config.append {
                    OpenMode::Append
                } else {
                    OpenMode::Truncate
                },
            };
            Action::OpenStream(s, stream_file(config, s), mode)
        },
        Phase::ReplaceStream(s) => Action::ReplaceStream(s),
        Phase::CloseStream(s) => Action::CloseStream(s),
        Phase::GetPid => Action::GetPid,
        Phase::WritePidFile => match &config.pid_file {
            Some(p) => Action::WritePidFile(copy_path(p), decimal_text(pid)),
            None => Action::Fork,
        },
        Phase::Chroot => match &config.chdir {
            Some(d) => Action::Chroot(copy_path(d)),
            None => Action::Fork,
        },
    }
}

fn issue(config: Daemonize, plan: Vec<Phase>, i: usize, pid: i32) -> (r: Transition)
    requires
        i < plan@.len(),
        fits_all(config, plan@),
    ensures
        issued(r, config, plan@, i as int, pid),
{
    let phase = plan[i];
    assert(fits(config, plan@[i as int]));
    if matches!(phase, Phase::Chroot) {
        let bad = match &config.chdir {
            Some(d) => contains_nul(d),
            None => false,
        };
        if bad {
            return Transition::Finish(Err(DaemonizeError::PathEncodingFailed));
        }
    }
    let a = action_for(&config, phase, pid);
    Transition::Next(Daemon { config, plan, at: i, pid }, a)
}

} // verus!
