//! The process handle and its protocols: launch, attach, resume, teardown.
//!
//! A [`Process`] is the unique owner of one pid and of the trace relationship
//! with it; it is created by the launch or the attach protocol, advanced in
//! place by [`Process::resume`], and torn down exactly once by
//! [`Process::end`], which the owning scope must run on every exit path.
//!
//! The kernel is reached through trusted wrappers around `nix`; what each
//! call decides is verified here.  The launch protocol spans a process
//! duplication that cannot be expressed in this crate, so it is split into
//! the verified phases [`Process::launch_prepare`] (before any process
//! exists) and [`Process::launch_conclude`] (the parent's side after the
//! duplication); the caller performs the duplication between them and feeds
//! the relay bytes back (see [`crate::channel`]).

use vstd::prelude::*;
use vstd::string::*;

use crate::channel;
use crate::error::SdbError;

verus! {

/// Run state of one traced target, as last reported by the kernel through
/// the wait primitive (never a guess, but for the synthesized initial stop of
/// a launch that skips the first wait).
#[derive(Clone, Copy, Debug, PartialEq, Eq, Structural)]
pub enum ProcessState {
    /// No stop or end has been observed yet.
    Running,
    /// Stopped by the signal with this number.
    Stopped(i32),
    /// Exited normally with this status code.
    Exited(i32),
    /// Ended by the signal with this number.
    Signaled(i32),
    /// The kernel reported a change this model does not distinguish.
    Unknown,
}

/// The signal number of the stop signal (SIGSTOP) on this platform.
pub const STOP_SIGNAL: i32 = 19;

/// The signals the teardown protocol sends.
#[derive(Clone, Copy, Debug, PartialEq, Eq, Structural)]
enum SignalKind {
    /// Stop the target (SIGSTOP).
    Stop,
    /// Let the target continue (SIGCONT).
    Cont,
    /// Terminate the target forcibly (SIGKILL).
    Kill,
}

/// Relies on `nix::sys::wait::waitpid`, called without flags: blocks until
/// the kernel reports a state change of `pid` and returns it, or the errno of
/// the failed wait.  An OS error code is never negative.
#[verifier::external_body]
fn waitpid_blocking(pid: i32) -> (r: Result<ProcessState, i32>)
    ensures
        r matches Err(en) ==> 0 <= en,
{
    match nix::sys::wait::waitpid(nix::unistd::Pid::from_raw(pid), None) {
        Ok(nix::sys::wait::WaitStatus::Exited(_, code)) => Ok(ProcessState::Exited(code)),
        Ok(nix::sys::wait::WaitStatus::Stopped(_, sig)) => Ok(ProcessState::Stopped(sig as i32)),
        Ok(nix::sys::wait::WaitStatus::Signaled(_, sig, _)) => Ok(ProcessState::Signaled(sig as i32)),
        Ok(nix::sys::wait::WaitStatus::StillAlive) => Ok(ProcessState::Running),
        Ok(_) => Ok(ProcessState::Unknown),
        Err(en) => Err(en as i32),
    }
}

/// Relies on `nix::sys::ptrace::attach` (PTRACE_ATTACH): requests a trace
/// relationship with the process `pid`, or returns the errno of the refusal.
/// An OS error code is never negative.
#[verifier::external_body]
fn ptrace_attach_raw(pid: i32) -> (r: Result<(), i32>)
    ensures
        r matches Err(en) ==> 0 <= en,
{
    nix::sys::ptrace::attach(nix::unistd::Pid::from_raw(pid)).map_err(|e| e as i32)
}

/// Relies on `nix::sys::ptrace::cont` (PTRACE_CONT) with no signal: asks the
/// kernel to let the stopped tracee `pid` run on, or returns the errno of the
/// rejection.  An OS error code is never negative.
#[verifier::external_body]
fn ptrace_cont_raw(pid: i32) -> (r: Result<(), i32>)
    ensures
        r matches Err(en) ==> 0 <= en,
{
    nix::sys::ptrace::cont(nix::unistd::Pid::from_raw(pid), None).map_err(|e| e as i32)
}

/// Relies on `nix::sys::ptrace::detach` (PTRACE_DETACH) with no signal: ends
/// the trace relationship with `pid`, or returns the errno of the refusal.
/// An OS error code is never negative.
#[verifier::external_body]
fn ptrace_detach_raw(pid: i32) -> (r: Result<(), i32>)
    ensures
        r matches Err(en) ==> 0 <= en,
{
    nix::sys::ptrace::detach(nix::unistd::Pid::from_raw(pid), None).map_err(|e| e as i32)
}

/// Relies on `nix::sys::signal::kill`: delivers the chosen signal to `pid`,
/// or returns the errno of the refusal.  An OS error code is never negative.
#[verifier::external_body]
fn send_signal_raw(pid: i32, sig: SignalKind) -> (r: Result<(), i32>)
    ensures
        r matches Err(en) ==> 0 <= en,
{
    let signal = match sig {
        SignalKind::Stop => nix::sys::signal::Signal::SIGSTOP,
        SignalKind::Cont => nix::sys::signal::Signal::SIGCONT,
        SignalKind::Kill => nix::sys::signal::Signal::SIGKILL,
    };
    nix::sys::signal::kill(nix::unistd::Pid::from_raw(pid), signal).map_err(|e| e as i32)
}

/// The wait primitive: blocks until the kernel reports the next state change
/// of the process with the given `pid` and returns it.
pub fn wait_on_signal(pid: i32) -> (r: Result<ProcessState, SdbError>)
    ensures
        r matches Err(e) ==> e matches SdbError::WaitFailed { errno } && 0 <= errno,
{
    match waitpid_blocking(pid) {
        Ok(state) => Ok(state),
        Err(en) => Err(SdbError::WaitFailed { errno: en }),
    }
}

/// How one step of the teardown protocol went.  Teardown is best effort:
/// failures are reported, never propagated.
#[derive(Clone, Copy, Debug, PartialEq, Eq, Structural)]
pub enum StepOutcome {
    /// The state or the policy made the step unnecessary.
    NotNeeded,
    /// The kernel accepted the request.
    Done,
    /// The kernel refused the request with this errno.
    Failed(i32),
}

/// What the teardown protocol did, step by step, for the owning scope to
/// log or ignore; the engine itself performs no hidden I/O.
#[derive(Clone, Copy, Debug, PartialEq, Eq, Structural)]
pub struct TeardownReport {
    /// The whole teardown was skipped: the handle held the "no process"
    /// sentinel.
    pub skipped: bool,
    /// Stopping a still-running target before acting on it.
    pub stop: StepOutcome,
    /// Ending the trace relationship.
    pub detach: StepOutcome,
    /// Letting the target continue, so that detaching never leaves it frozen.
    pub cont: StepOutcome,
    /// Terminating and reaping a target this handle owned.
    pub kill: StepOutcome,
}

/// True when the byte sequence of a path holds an embedded NUL.
pub open spec fn path_has_nul(bytes: Seq<u8>) -> bool {
    exists|i: int| 0 <= i < bytes.len() && bytes[i] == 0
}

/// A handle to one traced OS process: the unique owner of the pair of the
/// pid and the trace relationship.  Two handles must never hold the same
/// pid — teardown would detach and kill it twice — so handles are created
/// only by the launch and the attach protocol.
#[derive(Debug)]
pub struct Process {
    /// The target's OS process identifier; never changes once assigned.
    pub pid: i32,
    /// Decided at construction and never mutated afterwards: this handle
    /// owns the target's whole lifetime and must kill it at teardown.
    pub terminate_on_end: bool,
    /// The target's run state as last reported by the kernel.
    pub state: ProcessState,
}

impl Process {
    /// True when teardown must terminate the target.
    pub open spec fn owns_target(self) -> bool {
        self.terminate_on_end
    }

    /// Every constructed handle holds a real pid, never the sentinel.
    pub open spec fn wf(self) -> bool {
        0 < self.pid
    }

    /// The launch protocol before any process exists: rejects a path that
    /// holds an embedded NUL byte, which could not be handed to the kernel.
    pub fn launch_prepare(path: &str) -> (r: Result<(), SdbError>)
        ensures
            r is Ok <==> !path_has_nul(path.spec_bytes()),
            r matches Err(e) ==> e == SdbError::PathContainsNull,
    {
        let bytes = path.as_bytes();
        let mut i: usize = 0;
        while i < bytes.len()
            invariant
                i <= bytes@.len(),
                bytes@ == path.spec_bytes(),
                forall|j: int| 0 <= j < i ==> bytes@[j] != 0,
            decreases bytes@.len() - i,
        {
            if bytes[i] == 0 {
                assert(path_has_nul(path.spec_bytes()));
                return Err(SdbError::PathContainsNull);
            }
            i += 1;
        }
        Ok(())
    }

    /// The parent's side of the launch protocol, after the duplication:
    /// `pid` is the duplicated process and `relay` what reading the error
    /// channel gave — the bytes that arrived before the write end closed, or
    /// the errno of a failed read.
    ///
    /// Any relayed content is an error of the child's pre-exec phase: it is
    /// returned, after blocking until the child is reaped, so that no launch
    /// failure leaks a process.  With nothing relayed the child's image was
    /// replaced under trace, and the handle owns the target.  When the first
    /// stop is not waited for, the state is synthesized as stopped: the pipe
    /// has already ruled out an exec failure, and the kernel stops the tracee
    /// before it runs target code.
    pub fn launch_conclude(pid: i32, relay: Result<Vec<u8>, i32>, wait_for_initial_stop: bool) -> (r:
        Result<Process, SdbError>)
        requires
            0 < pid,
            relay matches Err(en) ==> 0 <= en,
        ensures
            r matches Ok(p) ==> p.pid == pid && p.owns_target() && p.wf(),
            r matches Err(e) ==> e.wf(),
            relay matches Err(en) ==> r matches Err(e) && e == (SdbError::RelayReadFailed {
                errno: en,
            }),
            relay is Ok && relay->Ok_0@.len() > 0 ==> r is Err && Some(r->Err_0)
                == channel::spec_decode(relay->Ok_0@),
            forall|e: SdbError|
                relay is Ok && e.wf() && relay->Ok_0@ == channel::spec_encode(e) ==> r == Result::<
                    Process,
                    SdbError,
                >::Err(e),
            relay is Ok && relay->Ok_0@.len() == 0 && !wait_for_initial_stop ==> r is Ok
                && r->Ok_0.state == ProcessState::Stopped(STOP_SIGNAL),
            relay is Ok && relay->Ok_0@.len() == 0 && wait_for_initial_stop && r is Err ==> r->Err_0
                is WaitFailed,
    {
        let bytes = match relay {
            Err(en) => {
                let _ = wait_on_signal(pid);
                return Err(SdbError::RelayReadFailed { errno: en });
            },
            Ok(bytes) => bytes,
        };
        if bytes.len() > 0 {
            let message = match channel::decode_message(&bytes) {
                Some(e) => e,
                None => SdbError::RelayCorrupt,
            };
            proof {
                assert forall|e: SdbError|
                    e.wf() && bytes@ == channel::spec_encode(e) implies channel::spec_decode(bytes@)
                    == Some(e) by {
                    channel::lemma_message_round_trip(e);
                }
            }
            let _ = wait_on_signal(pid);
            return Err(message);
        }
        let state = if wait_for_initial_stop {
            match wait_on_signal(pid) {
                Ok(state) => state,
                Err(e) => {
                    return Err(e);
                },
            }
        } else {
            ProcessState::Stopped(STOP_SIGNAL)
        };
        Ok(Process { pid, terminate_on_end: true, state })
    }

    /// The attach protocol: requests a trace relationship with the existing
    /// process `pid`, then blocks for its first stop.  The handle owns the
    /// target's lifetime, exactly as a launched one does.
    pub fn attach(pid: i32) -> (r: Result<Process, SdbError>)
        requires
            0 < pid,
        ensures
            r matches Ok(p) ==> p.pid == pid && p.owns_target() && p.wf(),
            r matches Err(e) ==> e.wf() && (e is AttachFailed || e is WaitFailed),
    {
        match ptrace_attach_raw(pid) {
            Err(en) => {
                return Err(SdbError::AttachFailed { errno: en });
            },
            Ok(()) => {},
        }
        let state = match wait_on_signal(pid) {
            Ok(state) => state,
            Err(e) => {
                return Err(e);
            },
        };
        Ok(Process { pid, terminate_on_end: true, state })
    }

    /// The resume protocol: asks the kernel to let the stopped target
    /// continue, then blocks for its next state change and records it.
    /// On failure the recorded state is untouched.
    pub fn resume(&mut self) -> (r: Result<(), SdbError>)
        requires
            old(self).wf(),
        ensures
            final(self).pid == old(self).pid,
            final(self).owns_target() == old(self).owns_target(),
            final(self).wf(),
            r matches Err(e) ==> e.wf() && (e is ResumeFailed || e is WaitFailed),
            r is Err ==> final(self).state == old(self).state,
    {
        match ptrace_cont_raw(self.pid) {
            Err(en) => {
                return Err(SdbError::ResumeFailed { errno: en });
            },
            Ok(()) => {},
        }
        match wait_on_signal(self.pid) {
            Ok(state) => {
                self.state = state;
                Ok(())
            },
            Err(e) => Err(e),
        }
    }

    /// The teardown protocol, run exactly once when the handle's lifetime
    /// ends: quiesce a still-running target, detach unconditionally, send the
    /// continue signal so that detaching never leaves the target frozen, and
    /// terminate and reap a target this handle owns.  Every step is best
    /// effort; the report makes failures observable without propagating
    /// them.  A handle holding the "no process" sentinel is left alone.
    pub fn end(self) -> (r: TeardownReport)
        ensures
            r.skipped <==> self.pid <= 0,
            r.skipped ==> r.stop is NotNeeded && r.detach is NotNeeded && r.cont is NotNeeded
                && r.kill is NotNeeded,
            !r.skipped ==> (r.stop is NotNeeded <==> self.state != ProcessState::Running),
            !r.skipped ==> !(r.detach is NotNeeded) && !(r.cont is NotNeeded),
            !r.skipped ==> (r.kill is NotNeeded <==> !self.owns_target()),
    {
        if self.pid <= 0 {
            return TeardownReport {
                skipped: true,
                stop: StepOutcome::NotNeeded,
                detach: StepOutcome::NotNeeded,
                cont: StepOutcome::NotNeeded,
                kill: StepOutcome::NotNeeded,
            };
        }
        let stop = if self.state == ProcessState::Running {
            let outcome = match send_signal_raw(self.pid, SignalKind::Stop) {
                Ok(()) => StepOutcome::Done,
                Err(en) => StepOutcome::Failed(en),
            };
            let _ = waitpid_blocking(self.pid);
            outcome
        } else {
            StepOutcome::NotNeeded
        };
        let detach = match ptrace_detach_raw(self.pid) {
            Ok(()) => StepOutcome::Done,
            Err(en) => StepOutcome::Failed(en),
        };
        let cont = match send_signal_raw(self.pid, SignalKind::Cont) {
            Ok(()) => StepOutcome::Done,
            Err(en) => StepOutcome::Failed(en),
        };
        let kill = if self.terminate_on_end {
            let outcome = match send_signal_raw(self.pid, SignalKind::Kill) {
                Ok(()) => StepOutcome::Done,
                Err(en) => StepOutcome::Failed(en),
            };
            let _ = waitpid_blocking(self.pid);
            outcome
        } else {
            StepOutcome::NotNeeded
        };
        TeardownReport { skipped: false, stop, detach, cont, kill }
    }
}

} // verus!
