use vstd::prelude::*;

use crate::protocol::{begin, fits_all, issued, verdict, DaemonizeError, Event, Phase, Transition, Verdict};
use crate::unix;

verus! {

/// What the reduced transition does where processes cannot be forked: only
/// the working directory and the PID file are acted on.
#[derive(Debug, Clone)]
pub struct Daemonize {
    pub chdir: Option<Vec<u8>>,
    pub pid_file: Option<Vec<u8>>,
    pub stdin_file: Option<Vec<u8>>,
    pub stdout_file: Option<Vec<u8>>,
    pub stderr_file: Option<Vec<u8>>,
    pub chroot: bool,
    pub append: bool,
}

impl Default for Daemonize {
    fn default() -> (r: Self)
        ensures
            r.chdir is None,
            r.pid_file is None,
            r.stdin_file is None,
            r.stdout_file is None,
            r.stderr_file is None,
            !r.chroot,
            !r.append,
    {
        Daemonize {
            chdir: None,
            pid_file: None,
            stdin_file: None,
            stdout_file: None,
            stderr_file: None,
            chroot: false,
            append: false,
        }
    }
}

impl Daemonize {
    /// The steps of the reduced transition, in order.
    pub open spec fn plan_of(self) -> Seq<Phase> {
        (if self.chdir is Some {
            seq![Phase::ChangeDir]
        } else {
            seq![]
        }) + (if self.pid_file is Some {
            seq![Phase::GetPid, Phase::WritePidFile]
        } else {
            seq![]
        })
    }

    /// The values the steps work on: the working directory and the PID file.
    pub open spec fn settings(self) -> unix::Daemonize {
        unix::Daemonize {
            chdir: self.chdir,
            pid_file: self.pid_file,
            stdin_file: None,
            stdout_file: None,
            stderr_file: None,
            umask: None,
            chroot: false,
            append: false,
        }
    }

    /// Starts the reduced transition; with neither a working directory nor a
    /// PID file there is nothing to do, and it is over at once.
    pub fn start(self) -> (r: Transition)
        ensures
            self.plan_of().len() == 0 ==> r matches Transition::Finish(Ok(())),
            self.plan_of().len() > 0 ==> issued(r, self.settings(), self.plan_of(), 0, 0),
    {
        let ghost spec_self = self;
        let mut plan: Vec<Phase> = Vec::new();
        if self.chdir.is_some() {
            plan.push(Phase::ChangeDir);
        }
        if self.pid_file.is_some() {
            plan.push(Phase::GetPid);
            plan.push(Phase::WritePidFile);
        }
        assert(plan@ =~= self.plan_of());
        let settings = unix::Daemonize {
            chdir: self.chdir,
            pid_file: self.pid_file,
            stdin_file: None,
            stdout_file: None,
            stderr_file: None,
            umask: None,
            chroot: false,
            append: false,
        };
        assert(settings == spec_self.settings());
        assert(fits_all(settings, plan@));
        begin(settings, plan)
    }
}

/// Without a working directory the reduced transition never changes
/// directory, and no event makes it fail with `ChdirFailed`; with one, the
/// change is its first step.
pub proof fn lemma_fallback_directory(cfg: Daemonize, i: int, ev: Event)
    requires
        0 <= i < cfg.plan_of().len(),
    ensures
        cfg.chdir is None ==> cfg.plan_of()[i] != Phase::ChangeDir && verdict(
            cfg.plan_of()[i],
            ev,
        ) != Verdict::Fail(DaemonizeError::ChdirFailed),
        cfg.chdir is Some ==> cfg.plan_of()[0] == Phase::ChangeDir,
{
}

} // verus!
