use vstd::prelude::*;

verus! {

/// The host's numbers for the signals that the reaper treats specially.
#[derive(Clone, Copy, Debug, PartialEq, Eq, Structural)]
pub struct SignalNumbers {
    /// A child changed state (`SIGCHLD`).
    pub child: i32,
    /// A runtime's preemption signal, never forwarded (`SIGURG`).
    pub preempt: i32,
    /// The terminal was resized; resizing is not passed on (`SIGWINCH`).
    pub resize: i32,
}

/// The three numbers name three different signals.
pub open spec fn distinct_signals(n: SignalNumbers) -> bool {
    n.child != n.preempt && n.child != n.resize && n.preempt != n.resize
}

/// How the reaper treats a signal taken from the wait.
#[derive(Clone, Copy, Debug, PartialEq, Eq, Structural)]
pub enum SignalClass {
    /// A child changed state: drain the exited children.
    ChildStatus,
    /// A runtime's scheduling signal: dropped.
    Ignored,
    /// A terminal resize: nothing to do.
    Resize,
    /// Anything else: sent on to the init process.
    Forward,
}

pub open spec fn class_of(n: SignalNumbers, sig: i32) -> SignalClass {
    if sig == n.child {
        SignalClass::ChildStatus
    } else if sig == n.preempt {
        SignalClass::Ignored
    } else if sig == n.resize {
        SignalClass::Resize
    } else {
        SignalClass::Forward
    }
}

/// How the reaper treats `sig`.
pub fn classify_signal(n: SignalNumbers, sig: i32) -> (r: SignalClass)
    ensures
        r == class_of(n, sig),
{
    if sig == n.child {
        SignalClass::ChildStatus
    } else if sig == n.preempt {
        SignalClass::Ignored
    } else if sig == n.resize {
        SignalClass::Resize
    } else {
        SignalClass::Forward
    }
}

/// What one non-blocking "reap any child" query reported.
#[derive(Clone, Copy, Debug, PartialEq, Eq, Structural)]
pub enum WaitOutcome {
    /// Child `pid` exited with `code`.
    Exited { pid: i32, code: i32 },
    /// Child `pid` was killed by `signal`.
    Signaled { pid: i32, signal: i32 },
    /// Children exist but none has a status pending.
    StillAlive,
    /// Some other status change (stopped, continued, traced).
    OtherStatus,
    /// The query itself failed.
    Failed,
}

/// Where the reaper stands between two events.
#[derive(Clone, Copy, Debug, PartialEq, Eq, Structural)]
pub enum ReaperPhase {
    /// Blocked in the synchronous signal wait.
    AwaitSignal,
    /// Reaping children until none has a status pending.
    Draining,
    /// A signal is being sent on to the init process.
    Forwarding,
    /// The init process has ended.
    Finished,
    /// Waiting or reaping failed.
    Failed,
}

/// What the host reports back to the reaper after performing an action.
#[derive(Clone, Copy, Debug, PartialEq, Eq, Structural)]
pub enum ReaperEvent {
    /// The synchronous wait returned this signal.
    Signal { sig: i32 },
    /// The synchronous wait failed.
    WaitFailed,
    /// A non-blocking reap reported this.
    Reaped { outcome: WaitOutcome },
    /// Forwarding a signal to the init process succeeded or failed.
    Forwarded { ok: bool },
}

/// What the host does next for the reaper.
#[derive(Clone, Copy, Debug, PartialEq, Eq, Structural)]
pub enum ReaperAction {
    /// Wait synchronously for the next pending signal.
    WaitForSignal,
    /// Reap any one child without blocking.
    ReapAny,
    /// Send `sig` to process `pid`.
    ForwardSignal { pid: i32, sig: i32 },
    /// Supervision is over: the init process ended with this status.
    Exit { status: i32 },
    /// Supervision is over: waiting or reaping failed.
    Abort,
}

/// The signal-forwarding and child-reaping loop of one container's init
/// process, as a state machine driven by the host.
pub struct Reaper {
    pub init_pid: i32,
    pub signals: SignalNumbers,
    pub phase: ReaperPhase,
}

/// Whether the reaper in `phase` can take `ev`.
pub open spec fn accepts(phase: ReaperPhase, ev: ReaperEvent) -> bool {
    match ev {
        ReaperEvent::Signal { .. } => phase == ReaperPhase::AwaitSignal,
        ReaperEvent::WaitFailed => phase == ReaperPhase::AwaitSignal,
        ReaperEvent::Reaped { .. } => phase == ReaperPhase::Draining,
        ReaperEvent::Forwarded { .. } => phase == ReaperPhase::Forwarding,
    }
}

/// The reaper's response to a reaped child.
pub open spec fn after_reap(init_pid: i32, o: WaitOutcome) -> (ReaperPhase, ReaperAction) {
    match o {
        WaitOutcome::Exited { pid, code } => if pid == init_pid {
            (ReaperPhase::Finished, ReaperAction::Exit { status: code })
        } else {
            (ReaperPhase::Draining, ReaperAction::ReapAny)
        },
        WaitOutcome::Signaled { pid, signal } => if pid == init_pid {
            (ReaperPhase::Finished, ReaperAction::Exit { status: signal })
        } else {
            (ReaperPhase::Draining, ReaperAction::ReapAny)
        },
        WaitOutcome::StillAlive => (ReaperPhase::AwaitSignal, ReaperAction::WaitForSignal),
        WaitOutcome::OtherStatus => (ReaperPhase::Draining, ReaperAction::ReapAny),
        WaitOutcome::Failed => (ReaperPhase::Failed, ReaperAction::Abort),
    }
}

/// The reaper's response to a signal taken from the wait.
pub open spec fn after_signal(init_pid: i32, n: SignalNumbers, sig: i32) -> (
    ReaperPhase,
    ReaperAction,
) {
    match class_of(n, sig) {
        SignalClass::ChildStatus => (ReaperPhase::Draining, ReaperAction::ReapAny),
        SignalClass::Ignored => (ReaperPhase::AwaitSignal, ReaperAction::WaitForSignal),
        SignalClass::Resize => (ReaperPhase::AwaitSignal, ReaperAction::WaitForSignal),
        SignalClass::Forward => (
            ReaperPhase::Forwarding,
            ReaperAction::ForwardSignal { pid: init_pid, sig },
        ),
    }
}

/// The next phase and action of a reaper for `init_pid`, with the host's
/// signal numbers `n`, on `ev`.
pub open spec fn transition(init_pid: i32, n: SignalNumbers, ev: ReaperEvent) -> (
    ReaperPhase,
    ReaperAction,
) {
    match ev {
        ReaperEvent::Signal { sig } => after_signal(init_pid, n, sig),
        ReaperEvent::WaitFailed => (ReaperPhase::Failed, ReaperAction::Abort),
        ReaperEvent::Reaped { outcome } => after_reap(init_pid, outcome),
        ReaperEvent::Forwarded { .. } => (ReaperPhase::AwaitSignal, ReaperAction::WaitForSignal),
    }
}

pub open spec fn is_final(phase: ReaperPhase) -> bool {
    phase == ReaperPhase::Finished || phase == ReaperPhase::Failed
}

impl Reaper {
    /// A reaper for `init_pid` and its first action: wait for a signal.
    /// Every signal must already be blocked for the calling thread, from
    /// before the init process was started (see the lifecycle), so that none
    /// is lost before the first wait.
    pub fn new(init_pid: i32, signals: SignalNumbers) -> (r: (Reaper, ReaperAction))
        ensures
            r.0.init_pid == init_pid,
            r.0.signals == signals,
            r.0.phase == ReaperPhase::AwaitSignal,
            r.1 == ReaperAction::WaitForSignal,
    {
        (Reaper { init_pid, signals, phase: ReaperPhase::AwaitSignal }, ReaperAction::WaitForSignal)
    }

    /// Whether supervision is over.
    pub fn is_done(&self) -> (r: bool)
        ensures
            r == is_final(self.phase),
    {
        self.phase == ReaperPhase::Finished || self.phase == ReaperPhase::Failed
    }

    /// Whether the reaper can take `ev` now.
    pub fn accepts_event(&self, ev: &ReaperEvent) -> (r: bool)
        ensures
            r == accepts(self.phase, *ev),
    {
        match ev {
            ReaperEvent::Signal { .. } => self.phase == ReaperPhase::AwaitSignal,
            ReaperEvent::WaitFailed => self.phase == ReaperPhase::AwaitSignal,
            ReaperEvent::Reaped { .. } => self.phase == ReaperPhase::Draining,
            ReaperEvent::Forwarded { .. } => self.phase == ReaperPhase::Forwarding,
        }
    }

    fn on_reaped(&mut self, o: WaitOutcome) -> (r: ReaperAction)
        ensures
            final(self).init_pid == old(self).init_pid,
            final(self).signals == old(self).signals,
            (final(self).phase, r) == after_reap(old(self).init_pid, o),
    {
        match o {
            WaitOutcome::Exited { pid, code } => {
                if pid == self.init_pid {
                    self.phase = ReaperPhase::Finished;
                    ReaperAction::Exit { status: code }
                } else {
                    self.phase = ReaperPhase::Draining;
                    ReaperAction::ReapAny
                }
            },
            WaitOutcome::Signaled { pid, signal } => {
                if pid == self.init_pid {
                    self.phase = ReaperPhase::Finished;
                    ReaperAction::Exit { status: signal }
                } else {
                    self.phase = ReaperPhase::Draining;
                    ReaperAction::ReapAny
                }
            },
            WaitOutcome::StillAlive => {
                self.phase = ReaperPhase::AwaitSignal;
                ReaperAction::WaitForSignal
            },
            WaitOutcome::OtherStatus => {
                self.phase = ReaperPhase::Draining;
                ReaperAction::ReapAny
            },
            WaitOutcome::Failed => {
                self.phase = ReaperPhase::Failed;
                ReaperAction::Abort
            },
        }
    }

    fn on_signal(&mut self, sig: i32) -> (r: ReaperAction)
        ensures
            final(self).init_pid == old(self).init_pid,
            final(self).signals == old(self).signals,
            (final(self).phase, r) == after_signal(old(self).init_pid, old(self).signals, sig),
    {
        match classify_signal(self.signals, sig) {
            SignalClass::ChildStatus => {
                self.phase = ReaperPhase::Draining;
                ReaperAction::ReapAny
            },
            SignalClass::Ignored | SignalClass::Resize => {
                self.phase = ReaperPhase::AwaitSignal;
                ReaperAction::WaitForSignal
            },
            SignalClass::Forward => {
                self.phase = ReaperPhase::Forwarding;
                ReaperAction::ForwardSignal { pid: self.init_pid, sig }
            },
        }
    }

    /// Takes the host's report on the last action and returns the next one.
    pub fn step(&mut self, ev: ReaperEvent) -> (r: ReaperAction)
        requires
            accepts(old(self).phase, ev),
        ensures
            final(self).init_pid == old(self).init_pid,
            final(self).signals == old(self).signals,
            (final(self).phase, r) == transition(old(self).init_pid, old(self).signals, ev),
    {
        match ev {
            ReaperEvent::Signal { sig } => self.on_signal(sig),
            ReaperEvent::WaitFailed => {
                self.phase = ReaperPhase::Failed;
                ReaperAction::Abort
            },
            ReaperEvent::Reaped { outcome } => self.on_reaped(outcome),
            ReaperEvent::Forwarded { .. } => {
                self.phase = ReaperPhase::AwaitSignal;
                ReaperAction::WaitForSignal
            },
        }
    }
}

/// The loop has one way out with a status: the init process itself exited
/// or was killed. Every other event leaves the reaper running or failed.
pub proof fn lemma_only_init_ends(init_pid: i32, n: SignalNumbers, ev: ReaperEvent, status: i32)
    requires
        transition(init_pid, n, ev).1 == (ReaperAction::Exit { status }),
    ensures
        ev == (ReaperEvent::Reaped { outcome: WaitOutcome::Exited { pid: init_pid, code: status } })
            || ev == (ReaperEvent::Reaped {
            outcome: WaitOutcome::Signaled { pid: init_pid, signal: status },
        }),
        transition(init_pid, n, ev).0 == ReaperPhase::Finished,
{
}

/// A child other than the init process that exits or is killed is reaped and
/// the drain goes on.
pub proof fn lemma_unrelated_child_absorbed(init_pid: i32, n: SignalNumbers, pid: i32, status: i32)
    requires
        pid != init_pid,
    ensures
        transition(init_pid, n, ReaperEvent::Reaped { outcome: WaitOutcome::Exited { pid, code: status } })
            == (ReaperPhase::Draining, ReaperAction::ReapAny),
        transition(
            init_pid,
            n,
            ReaperEvent::Reaped { outcome: WaitOutcome::Signaled { pid, signal: status } },
        ) == (ReaperPhase::Draining, ReaperAction::ReapAny),
{
}

/// The runtime-scheduling signal and the resize signal are neither forwarded
/// nor an end: the reaper goes back to waiting.
pub proof fn lemma_absorbed_signals(init_pid: i32, n: SignalNumbers)
    requires
        distinct_signals(n),
    ensures
        transition(init_pid, n, ReaperEvent::Signal { sig: n.preempt }) == (
            ReaperPhase::AwaitSignal,
            ReaperAction::WaitForSignal,
        ),
        transition(init_pid, n, ReaperEvent::Signal { sig: n.resize }) == (
            ReaperPhase::AwaitSignal,
            ReaperAction::WaitForSignal,
        ),
{
}

/// A forward that fails, or succeeds, returns the reaper to waiting.
pub proof fn lemma_forward_result_absorbed(init_pid: i32, n: SignalNumbers, ok: bool)
    ensures
        transition(init_pid, n, ReaperEvent::Forwarded { ok }) == (
            ReaperPhase::AwaitSignal,
            ReaperAction::WaitForSignal,
        ),
{
}

/// Only the init process is ever sent a signal, and only the very signal
/// that arrived, never the child-status, scheduling or resize signals.
pub proof fn lemma_forward_targets_init(
    init_pid: i32,
    n: SignalNumbers,
    ev: ReaperEvent,
    pid: i32,
    sig: i32,
)
    requires
        transition(init_pid, n, ev).1 == (ReaperAction::ForwardSignal { pid, sig }),
    ensures
        pid == init_pid,
        ev == (ReaperEvent::Signal { sig }),
        sig != n.child && sig != n.preempt && sig != n.resize,
{
}

} // verus!
