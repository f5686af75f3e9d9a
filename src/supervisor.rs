use vstd::prelude::*;

use crate::launch::{host_or_default, launch_args, port_or, views, LaunchConfig};
use crate::launch::{DEFAULT_TCP_PORT, DEFAULT_WS_PORT};

verus! {

/// Why an operation on the supervisor failed.
#[derive(Debug, Clone, PartialEq, Eq)]
pub enum SupervisorError {
    /// A start was asked for while a child is tracked or being started.
    AlreadyRunning,
    /// A stop was asked for while no child is tracked.
    NotRunning,
    /// The operating system could not create the child; the reason it gave.
    SpawnFailed(String),
    /// The operating system could not signal the child; the reason it gave.
    KillFailed(String),
    /// The lock around the supervisor was poisoned by an earlier panic.
    LockPoisoned(String),
}

/// What the supervisor is doing, as callers observe it.
#[derive(Debug, Clone, Copy, PartialEq, Eq, Structural)]
pub enum Mode {
    /// No child is tracked.
    Idle,
    /// A start has claimed the supervisor and its spawn has not settled yet.
    Starting,
    /// A child with this process identifier is tracked.
    Running(u32),
}

/// The state behind a `Mode`, holding the child's handle while it runs.
enum Phase<H> {
    Idle,
    Starting,
    Running { pid: u32, child: H },
}

/// Keeper of at most one child process, of handle type `H`.
///
/// A start is split in two so that the slow spawn needs no lock: `begin_start`
/// claims the supervisor (moving it from idle to starting) and hands out the
/// command line, and `finish_start` records how the spawn went. While a claim
/// is outstanding every other start is refused, so at most one child is ever
/// spawned and tracked.
pub struct Supervisor<H> {
    phase: Phase<H>,
}

/// The mode after a start is asked for.
pub open spec fn after_claim(m: Mode) -> Mode {
    if m is Idle { Mode::Starting } else { m }
}

/// Whether a start asked for in mode `m` is refused.
pub open spec fn claim_refused(m: Mode) -> bool {
    m !is Idle
}

/// The mode after a claimed start settles: the identifier of the spawned
/// child, or `None` where the spawn failed.
pub open spec fn after_spawn(spawned: Option<u32>) -> Mode {
    match spawned {
        Some(pid) => Mode::Running(pid),
        None => Mode::Idle,
    }
}

/// The mode after a stop is asked for.
pub open spec fn after_stop(m: Mode) -> Mode {
    if m is Running { Mode::Idle } else { m }
}

/// Whether a stop asked for in mode `m` is refused.
pub open spec fn stop_refused(m: Mode) -> bool {
    m !is Running
}

/// What the status query reports in mode `m`.
pub open spec fn reports_running(m: Mode) -> bool {
    m is Running
}

/// What the identifier query reports in mode `m`.
pub open spec fn reported_pid(m: Mode) -> Option<u32> {
    match m {
        Mode::Running(pid) => Some(pid),
        _ => None,
    }
}

impl<H> View for Supervisor<H> {
    type V = Mode;

    closed spec fn view(&self) -> Mode {
        match self.phase {
            Phase::Idle => Mode::Idle,
            Phase::Starting => Mode::Starting,
            Phase::Running { pid, .. } => Mode::Running(pid),
        }
    }
}

impl<H> Supervisor<H> {
    /// The handle of the tracked child, if any.
    pub closed spec fn held(&self) -> Option<H> {
        match self.phase {
            Phase::Running { child, .. } => Some(child),
            _ => None,
        }
    }

    /// A supervisor with no child.
    pub fn new() -> (r: Self)
        ensures
            r@ == Mode::Idle,
            r.held() is None,
    {
        Supervisor { phase: Phase::Idle }
    }

    /// Claims the supervisor for a start and returns the child's command
    /// line, with the defaults filled in for what was omitted. Refused with
    /// `AlreadyRunning`, and nothing changed, unless the supervisor is idle.
    pub fn begin_start(
        &mut self,
        ws_port: Option<u16>,
        tcp_host: Option<String>,
        tcp_port: Option<u16>,
    ) -> (r: Result<Vec<String>, SupervisorError>)
        ensures
            final(self)@ == after_claim(old(self)@),
            r is Ok <==> !claim_refused(old(self)@),
            r matches Ok(args) ==> views(args@) == launch_args(
                port_or(ws_port, DEFAULT_WS_PORT),
                host_or_default(tcp_host),
                port_or(tcp_port, DEFAULT_TCP_PORT),
            ),
            r is Err ==> r == Err::<Vec<String>, SupervisorError>(SupervisorError::AlreadyRunning)
                && *final(self) == *old(self),
    {
        match self.phase {
            Phase::Idle => {},
            _ => {
                return Err(SupervisorError::AlreadyRunning);
            },
        }
        self.phase = Phase::Starting;
        let config = LaunchConfig::resolve(ws_port, tcp_host, tcp_port);
        Ok(config.args())
    }

    /// Whether a claimed start has yet to settle.
    pub fn is_starting(&self) -> (r: bool)
        ensures
            r == (self@ is Starting),
    {
        match self.phase {
            Phase::Starting => true,
            _ => false,
        }
    }

    /// Records how the spawn of a claimed start went. A spawned child is
    /// tracked and its identifier returned; a failed spawn leaves the
    /// supervisor idle and is reported as `SpawnFailed` with its reason.
    pub fn finish_start(&mut self, spawned: Result<(u32, H), String>) -> (r: Result<u32, SupervisorError>)
        requires
            old(self)@ is Starting,
        ensures
            match spawned {
                Ok((pid, child)) => {
                    &&& final(self)@ == after_spawn(Some(pid))
                    &&& final(self).held() == Some(child)
                    &&& r == Ok::<u32, SupervisorError>(pid)
                },
                Err(reason) => {
                    &&& final(self)@ == after_spawn(None)
                    &&& final(self).held() is None
                    &&& r == Err::<u32, SupervisorError>(SupervisorError::SpawnFailed(reason))
                },
            },
    {
        match spawned {
            Ok((pid, child)) => {
                self.phase = Phase::Running { pid, child };
                Ok(pid)
            },
            Err(reason) => {
                self.phase = Phase::Idle;
                Err(SupervisorError::SpawnFailed(reason))
            },
        }
    }

    /// Takes the tracked child's handle out, leaving the supervisor idle, so
    /// that the caller can kill it. Refused with `NotRunning`, and nothing
    /// changed, when no child is tracked.
    pub fn stop(&mut self) -> (r: Result<H, SupervisorError>)
        ensures
            final(self)@ == after_stop(old(self)@),
            r is Ok <==> !stop_refused(old(self)@),
            r matches Ok(child) ==> old(self).held() == Some(child) && final(self).held() is None,
            r is Err ==> r == Err::<H, SupervisorError>(SupervisorError::NotRunning)
                && *final(self) == *old(self),
    {
        match self.phase {
            Phase::Running { .. } => {},
            _ => {
                return Err(SupervisorError::NotRunning);
            },
        }
        let mut phase = Phase::Idle;
        std::mem::swap(&mut phase, &mut self.phase);
        match phase {
            Phase::Running { child, .. } => Ok(child),
            _ => Err(SupervisorError::NotRunning),
        }
    }

    /// Whether a child is tracked. This is what the supervisor believes: a
    /// child that exited on its own is still reported until it is stopped.
    pub fn is_running(&self) -> (r: bool)
        ensures
            r == reports_running(self@),
    {
        match self.phase {
            Phase::Running { .. } => true,
            _ => false,
        }
    }

    /// The identifier of the tracked child, if any.
    pub fn pid(&self) -> (r: Option<u32>)
        ensures
            r == reported_pid(self@),
    {
        match self.phase {
            Phase::Running { pid, .. } => Some(pid),
            _ => None,
        }
    }
}

/// The result of a stop, given how the kill of the taken child went: a kill
/// that failed is reported as `KillFailed` with its reason.
pub fn kill_outcome(killed: Result<(), String>) -> (r: Result<(), SupervisorError>)
    ensures
        match killed {
            Ok(()) => r is Ok,
            Err(reason) => r == Err::<(), SupervisorError>(SupervisorError::KillFailed(reason)),
        },
{
    match killed {
        Ok(()) => Ok(()),
        Err(reason) => Err(SupervisorError::KillFailed(reason)),
    }
}

} // verus!
