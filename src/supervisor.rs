use vstd::prelude::*;

verus! {

/// Which parts of the pipeline one run performs.
#[derive(Clone, Debug)]
pub struct SupervisorConfig {
    /// Build the rootless specification instead of the default one.
    pub rootless: bool,
    /// Where to write the specification, if anywhere.
    pub persist_spec_path: Option<String>,
    /// Build, start, supervise and delete the container.
    pub run_container: bool,
}

/// One step of the pipeline, in the order the pipeline takes them.
#[derive(Clone, Debug)]
pub enum Stage {
    PullImage,
    UnpackImage,
    BuildSpec { rootless: bool },
    PersistSpec { path: String },
    RunContainer,
}

/// Whether the stage `s` is `t`, a path compared by its characters.
pub open spec fn same_stage(s: Stage, t: Stage) -> bool {
    match (s, t) {
        (Stage::PullImage, Stage::PullImage) => true,
        (Stage::UnpackImage, Stage::UnpackImage) => true,
        (Stage::BuildSpec { rootless: a }, Stage::BuildSpec { rootless: b }) => a == b,
        (Stage::PersistSpec { path: a }, Stage::PersistSpec { path: b }) => a@ == b@,
        (Stage::RunContainer, Stage::RunContainer) => true,
        _ => false,
    }
}

/// Whether a run with `c` needs a specification at all.
pub open spec fn needs_spec(c: SupervisorConfig) -> bool {
    c.persist_spec_path.is_some() || c.run_container
}

/// The stages of a run with `c`: the image is always pulled and unpacked; the
/// specification is built when it is written or used; it is written before
/// the container runs.
pub open spec fn stages_of(c: SupervisorConfig) -> Seq<Stage> {
    let fetch = seq![Stage::PullImage, Stage::UnpackImage];
    let build = if needs_spec(c) {
        seq![Stage::BuildSpec { rootless: c.rootless }]
    } else {
        Seq::empty()
    };
    let persist = match c.persist_spec_path {
        Some(p) => seq![Stage::PersistSpec { path: p }],
        None => Seq::empty(),
    };
    let run = if c.run_container {
        seq![Stage::RunContainer]
    } else {
        Seq::empty()
    };
    fetch + build + persist + run
}

/// `r` lists the same stages as `s`, in the same order.
pub open spec fn same_stages(r: Seq<Stage>, s: Seq<Stage>) -> bool {
    r.len() == s.len() && forall|i: int| 0 <= i < s.len() ==> same_stage(#[trigger] r[i], s[i])
}

/// The stages of a run with `c`, in order.
pub fn plan_stages(c: &SupervisorConfig) -> (r: Vec<Stage>)
    ensures
        same_stages(r@, stages_of(*c)),
{
    let mut r: Vec<Stage> = Vec::new();
    r.push(Stage::PullImage);
    r.push(Stage::UnpackImage);
    let needs = match &c.persist_spec_path {
        Some(_) => true,
        None => c.run_container,
    };
    if needs {
        r.push(Stage::BuildSpec { rootless: c.rootless });
    }
    match &c.persist_spec_path {
        Some(p) => {
            r.push(Stage::PersistSpec { path: p.clone() });
        },
        None => {},
    }
    if c.run_container {
        r.push(Stage::RunContainer);
    }
    proof {
        let s = stages_of(*c);
        assert(r@.len() == s.len());
        assert forall|i: int| 0 <= i < s.len() implies same_stage(#[trigger] r@[i], s[i]) by {}
    }
    r
}

/// How a supervised run ended.
#[derive(Clone, Copy, Debug, PartialEq, Eq, Structural)]
pub enum RunOutcome {
    /// The init process ended with this status.
    Exited { status: i32 },
    /// Signals could not be blocked, so the container was not started.
    MaskFailed,
    /// The container could not be started.
    StartFailed,
    /// The reaper failed before the init process ended.
    SupervisionFailed,
}

/// Where a container's lifecycle stands.
#[derive(Clone, Copy, Debug, PartialEq, Eq, Structural)]
pub enum LifecyclePhase {
    /// Built; signals not yet blocked.
    Built,
    /// Every signal is blocked for the supervising thread; not yet started.
    Masked,
    Supervising,
    Deleting,
    Done,
}

/// What the host reports after performing a lifecycle action.
#[derive(Clone, Copy, Debug, PartialEq, Eq, Structural)]
pub enum LifecycleEvent {
    /// Blocking every signal for the supervising thread succeeded or failed.
    SignalsBlocked { ok: bool },
    /// Starting gave the init process's pid, or failed.
    Started { pid: Option<i32> },
    /// The reaper returned the init process's status, or failed.
    Supervised { status: Option<i32> },
    /// Deleting the container (forced) succeeded or failed.
    Deleted { ok: bool },
}

/// What the host does next for the lifecycle.
#[derive(Clone, Copy, Debug, PartialEq, Eq, Structural)]
pub enum LifecycleAction {
    /// Block delivery of every signal to the supervising thread.
    BlockAllSignals,
    Start,
    Supervise { pid: i32 },
    Delete,
    /// The run is over; `delete_ok` is for the log only.
    Finish { outcome: RunOutcome, delete_ok: bool },
}

/// One container's lifecycle: built, signals blocked, started, supervised,
/// deleted.
#[derive(Clone, Copy, Debug, PartialEq, Eq, Structural)]
pub struct Lifecycle {
    pub phase: LifecyclePhase,
    pub masked: bool,
    pub started: bool,
    pub status: Option<i32>,
}

/// Whether a lifecycle in `phase` can take `ev`.
pub open spec fn lifecycle_accepts(phase: LifecyclePhase, ev: LifecycleEvent) -> bool {
    match ev {
        LifecycleEvent::SignalsBlocked { .. } => phase == LifecyclePhase::Built,
        LifecycleEvent::Started { .. } => phase == LifecyclePhase::Masked,
        LifecycleEvent::Supervised { .. } => phase == LifecyclePhase::Supervising,
        LifecycleEvent::Deleted { .. } => phase == LifecyclePhase::Deleting,
    }
}

/// The outcome of a run, decided by whether signals were blocked, whether it
/// started and what the reaper returned; the deletion's result plays no part.
pub open spec fn outcome_of(masked: bool, started: bool, status: Option<i32>) -> RunOutcome {
    if !masked {
        RunOutcome::MaskFailed
    } else if !started {
        RunOutcome::StartFailed
    } else {
        match status {
            Some(s) => RunOutcome::Exited { status: s },
            None => RunOutcome::SupervisionFailed,
        }
    }
}

pub open spec fn fresh_lifecycle() -> Lifecycle {
    Lifecycle { phase: LifecyclePhase::Built, masked: false, started: false, status: None }
}

/// The next lifecycle and action of `l` on `ev`.
pub open spec fn lifecycle_next(l: Lifecycle, ev: LifecycleEvent) -> (Lifecycle, LifecycleAction) {
    match ev {
        LifecycleEvent::SignalsBlocked { ok } => if ok {
            (Lifecycle { phase: LifecyclePhase::Masked, masked: true, ..l }, LifecycleAction::Start)
        } else {
            (Lifecycle { phase: LifecyclePhase::Deleting, masked: false, ..l }, LifecycleAction::Delete)
        },
        LifecycleEvent::Started { pid } => match pid {
            Some(p) => (
                Lifecycle { phase: LifecyclePhase::Supervising, started: true, status: None, ..l },
                LifecycleAction::Supervise { pid: p },
            ),
            None => (
                Lifecycle { phase: LifecyclePhase::Deleting, started: false, status: None, ..l },
                LifecycleAction::Delete,
            ),
        },
        LifecycleEvent::Supervised { status } => (
            Lifecycle { phase: LifecyclePhase::Deleting, status, ..l },
            LifecycleAction::Delete,
        ),
        LifecycleEvent::Deleted { ok } => (
            Lifecycle { phase: LifecyclePhase::Done, ..l },
            LifecycleAction::Finish {
                outcome: outcome_of(l.masked, l.started, l.status),
                delete_ok: ok,
            },
        ),
    }
}

pub fn run_outcome(masked: bool, started: bool, status: Option<i32>) -> (r: RunOutcome)
    ensures
        r == outcome_of(masked, started, status),
{
    if !masked {
        RunOutcome::MaskFailed
    } else if !started {
        RunOutcome::StartFailed
    } else {
        match status {
            Some(s) => RunOutcome::Exited { status: s },
            None => RunOutcome::SupervisionFailed,
        }
    }
}

impl Lifecycle {
    /// A freshly built container and its first action: block every signal
    /// for the supervising thread, before anything is started, so that no
    /// child's exit can slip past the reaper's first wait.
    pub fn new() -> (r: (Lifecycle, LifecycleAction))
        ensures
            r.0 == fresh_lifecycle(),
            r.1 == LifecycleAction::BlockAllSignals,
    {
        (
            Lifecycle { phase: LifecyclePhase::Built, masked: false, started: false, status: None },
            LifecycleAction::BlockAllSignals,
        )
    }

    /// Whether the lifecycle can take `ev` now.
    pub fn accepts_event(&self, ev: &LifecycleEvent) -> (r: bool)
        ensures
            r == lifecycle_accepts(self.phase, *ev),
    {
        match ev {
            LifecycleEvent::SignalsBlocked { .. } => self.phase == LifecyclePhase::Built,
            LifecycleEvent::Started { .. } => self.phase == LifecyclePhase::Masked,
            LifecycleEvent::Supervised { .. } => self.phase == LifecyclePhase::Supervising,
            LifecycleEvent::Deleted { .. } => self.phase == LifecyclePhase::Deleting,
        }
    }

    /// Takes the host's report on the last action and returns the next one.
    pub fn step(&mut self, ev: LifecycleEvent) -> (r: LifecycleAction)
        requires
            lifecycle_accepts(old(self).phase, ev),
        ensures
            (*final(self), r) == lifecycle_next(*old(self), ev),
    {
        match ev {
            LifecycleEvent::SignalsBlocked { ok } => {
                self.masked = ok;
                if ok {
                    self.phase = LifecyclePhase::Masked;
                    LifecycleAction::Start
                } else {
                    self.phase = LifecyclePhase::Deleting;
                    LifecycleAction::Delete
                }
            },
            LifecycleEvent::Started { pid } => {
                self.status = None;
                match pid {
                    Some(p) => {
                        self.phase = LifecyclePhase::Supervising;
                        self.started = true;
                        LifecycleAction::Supervise { pid: p }
                    },
                    None => {
                        self.phase = LifecyclePhase::Deleting;
                        self.started = false;
                        LifecycleAction::Delete
                    },
                }
            },
            LifecycleEvent::Supervised { status } => {
                self.phase = LifecyclePhase::Deleting;
                self.status = status;
                LifecycleAction::Delete
            },
            LifecycleEvent::Deleted { ok } => {
                self.phase = LifecyclePhase::Done;
                LifecycleAction::Finish {
                    outcome: run_outcome(self.masked, self.started, self.status),
                    delete_ok: ok,
                }
            },
        }
    }
}

/// The container is started only right after every signal was blocked, so
/// no signal can be lost between the start and the reaper's first wait.
pub proof fn lemma_start_after_mask(l: Lifecycle, ev: LifecycleEvent)
    requires
        lifecycle_accepts(l.phase, ev),
        lifecycle_next(l, ev).1 == LifecycleAction::Start,
    ensures
        l.phase == LifecyclePhase::Built,
        ev == (LifecycleEvent::SignalsBlocked { ok: true }),
        lifecycle_next(l, ev).0.masked,
{
}

/// Deletion is asked for exactly on entering the deleting phase, which only
/// the mask, the start (failed or not) or the end of supervision leads to;
/// the run finishes only from that phase. So every run deletes its container
/// once, on error paths too.
pub proof fn lemma_delete_once(l: Lifecycle, ev: LifecycleEvent)
    requires
        lifecycle_accepts(l.phase, ev),
    ensures
        (lifecycle_next(l, ev).1 == LifecycleAction::Delete) == (lifecycle_next(l, ev).0.phase
            == LifecyclePhase::Deleting),
        lifecycle_next(l, ev).1 == LifecycleAction::Delete ==> l.phase != LifecyclePhase::Deleting,
        lifecycle_next(l, ev).1 is Finish <==> l.phase == LifecyclePhase::Deleting,
        l.phase == LifecyclePhase::Masked && ev == (LifecycleEvent::Started { pid: None })
            ==> lifecycle_next(l, ev).1 == LifecycleAction::Delete,
{
}

/// A failed deletion never replaces the status that the reaper captured.
pub proof fn lemma_delete_failure_keeps_status(pid: i32, status: i32, ok: bool)
    ensures
        ({
            let (l0, _) = lifecycle_next(
                fresh_lifecycle(),
                LifecycleEvent::SignalsBlocked { ok: true },
            );
            let (l1, _) = lifecycle_next(l0, LifecycleEvent::Started { pid: Some(pid) });
            let (l2, _) = lifecycle_next(l1, LifecycleEvent::Supervised { status: Some(status) });
            lifecycle_next(l2, LifecycleEvent::Deleted { ok }).1 == (LifecycleAction::Finish {
                outcome: RunOutcome::Exited { status },
                delete_ok: ok,
            })
        }),
{
}

} // verus!
