use vstd::prelude::*;

verus! {

/// How a tick ended.
#[derive(PartialEq, Eq, Structural, Clone, Copy, Debug)]
pub enum TickOutcome {
    /// The first-time clone failed; it is tried again on the next tick.
    BootstrapFailed,
    /// Fetching the repository failed; nothing else was attempted.
    SyncFailed,
    /// Content unchanged and artifact in place: nothing to deploy.
    Ignored,
    /// Writing the artifact failed; neither reload nor restart was attempted.
    DeployFailed,
    /// No unit name could be derived from the target path; no restart was attempted.
    UnitNameFailed,
    /// The artifact was deployed; the flags tell whether reload and restart succeeded.
    Deployed { reloaded: bool, restarted: bool },
    /// An internal fault (a lock that could not be taken, an event out of
    /// order) ended this tick only.
    Aborted,
}

/// Where a tick stands: which collaborator result it waits for next.
#[derive(PartialEq, Eq, Structural, Clone, Copy, Debug)]
pub enum TickPhase {
    /// Admitted by the registry; waits to learn whether the job is bootstrapped.
    Admitted,
    Bootstrapping,
    /// Bootstrap succeeded; waits for the registry to record the job.
    Registering,
    Syncing,
    /// Content identifiers were equal; waits for the artifact-presence check.
    CheckingArtifact,
    Deploying,
    Reloading,
    ResolvingUnit { reloaded: bool },
    Restarting { reloaded: bool },
    Done { outcome: TickOutcome },
}

/// A result handed back by the caller after it performed an action.
#[derive(PartialEq, Eq, Clone, Debug)]
pub enum TickEvent {
    Started { registered: bool },
    Bootstrapped { ok: bool },
    Registered,
    Synced { previous: String, current: String },
    SyncFailed,
    ArtifactChecked { present: bool },
    Deployed { ok: bool },
    Reloaded { ok: bool },
    UnitResolved { unit: String },
    UnitUnresolved,
    Restarted { ok: bool },
    Fault,
}

/// What the caller must do next for this tick.
#[derive(PartialEq, Eq, Clone, Debug)]
pub enum TickAction {
    /// Clone the repository into the job's working directory.
    Bootstrap,
    /// Record the bootstrapped job in the registry.
    Register,
    /// Fetch and check out, reporting the content identifiers before and after.
    Sync,
    /// Check whether the artifact is deployed at the target path.
    CheckArtifact,
    /// Deploy the artifact from the working directory to the target path.
    Deploy,
    /// Reload the service manager's unit definitions.
    Reload,
    /// Derive the unit name from the target path.
    ResolveUnit,
    /// Restart the named unit.
    Restart { unit: String },
    /// Nothing more: the tick is over.
    Finish,
}

/// Whether the artifact must be deployed: the content changed, or the
/// artifact is missing on the host.
pub open spec fn redeploy(previous: Seq<char>, current: Seq<char>, artifact_present: bool) -> bool {
    previous != current || !artifact_present
}

pub open spec fn done(outcome: TickOutcome) -> (TickPhase, TickAction) {
    (TickPhase::Done { outcome }, TickAction::Finish)
}

/// One transition of a tick: the phase it moves to and the action it asks for.
/// A fault, or an event that does not answer the pending action, aborts the tick;
/// a finished tick stays finished.
pub open spec fn next(p: TickPhase, e: TickEvent) -> (TickPhase, TickAction) {
    match p {
        TickPhase::Done { outcome } => done(outcome),
        TickPhase::Admitted => match e {
            TickEvent::Started { registered } => if registered {
                (TickPhase::Syncing, TickAction::Sync)
            } else {
                (TickPhase::Bootstrapping, TickAction::Bootstrap)
            },
            _ => done(TickOutcome::Aborted),
        },
        TickPhase::Bootstrapping => match e {
            TickEvent::Bootstrapped { ok } => if ok {
                (TickPhase::Registering, TickAction::Register)
            } else {
                done(TickOutcome::BootstrapFailed)
            },
            _ => done(TickOutcome::Aborted),
        },
        TickPhase::Registering => match e {
            TickEvent::Registered => (TickPhase::Syncing, TickAction::Sync),
            _ => done(TickOutcome::Aborted),
        },
        TickPhase::Syncing => match e {
            TickEvent::Synced { previous, current } => if previous@ != current@ {
                (TickPhase::Deploying, TickAction::Deploy)
            } else {
                (TickPhase::CheckingArtifact, TickAction::CheckArtifact)
            },
            TickEvent::SyncFailed => done(TickOutcome::SyncFailed),
            _ => done(TickOutcome::Aborted),
        },
        TickPhase::CheckingArtifact => match e {
            TickEvent::ArtifactChecked { present } => if present {
                done(TickOutcome::Ignored)
            } else {
                (TickPhase::Deploying, TickAction::Deploy)
            },
            _ => done(TickOutcome::Aborted),
        },
        TickPhase::Deploying => match e {
            TickEvent::Deployed { ok } => if ok {
                (TickPhase::Reloading, TickAction::Reload)
            } else {
                done(TickOutcome::DeployFailed)
            },
            _ => done(TickOutcome::Aborted),
        },
        TickPhase::Reloading => match e {
            TickEvent::Reloaded { ok } => (
                TickPhase::ResolvingUnit { reloaded: ok },
                TickAction::ResolveUnit,
            ),
            _ => done(TickOutcome::Aborted),
        },
        TickPhase::ResolvingUnit { reloaded } => match e {
            TickEvent::UnitResolved { unit } => (
                TickPhase::Restarting { reloaded },
                TickAction::Restart { unit },
            ),
            TickEvent::UnitUnresolved => done(TickOutcome::UnitNameFailed),
            _ => done(TickOutcome::Aborted),
        },
        TickPhase::Restarting { reloaded } => match e {
            TickEvent::Restarted { ok } => done(
                TickOutcome::Deployed { reloaded, restarted: ok },
            ),
            _ => done(TickOutcome::Aborted),
        },
    }
}

/// The actions a tick asks for, from phase `p`, as it receives `events` in order.
pub open spec fn run(p: TickPhase, events: Seq<TickEvent>) -> Seq<TickAction>
    decreases events.len(),
{
    if events.len() == 0 {
        Seq::empty()
    } else {
        let (q, a) = next(p, events[0]);
        seq![a] + run(q, events.drop_first())
    }
}

/// The phase a tick reaches from `p` after receiving `events` in order.
pub open spec fn reached(p: TickPhase, events: Seq<TickEvent>) -> TickPhase
    decreases events.len(),
{
    if events.len() == 0 {
        p
    } else {
        reached(next(p, events[0]).0, events.drop_first())
    }
}

/// Decides whether the artifact must be deployed.
pub fn redeploy_needed(previous: &String, current: &String, artifact_present: bool) -> (r: bool)
    ensures
        r == redeploy(previous@, current@, artifact_present),
{
    !(*previous == *current) || !artifact_present
}

/// The per-tick state machine of one job. The caller performs each action it
/// asks for and hands the result back as the next event.
pub struct Tick {
    pub phase: TickPhase,
}

impl Tick {
    /// A tick just admitted by the registry.
    pub fn new() -> (r: Tick)
        ensures
            r.phase == TickPhase::Admitted,
    {
        Tick { phase: TickPhase::Admitted }
    }

    /// Whether the tick is over.
    pub fn is_done(&self) -> (r: bool)
        ensures
            r == self.phase is Done,
    {
        match self.phase {
            TickPhase::Done { .. } => true,
            _ => false,
        }
    }

    /// How the tick ended, once it has.
    pub fn outcome(&self) -> (r: Option<TickOutcome>)
        ensures
            match self.phase {
                TickPhase::Done { outcome } => r == Some(outcome),
                _ => r is None,
            },
    {
        match self.phase {
            TickPhase::Done { outcome } => Some(outcome),
            _ => None,
        }
    }

    /// Takes the result of the last action and returns the next one.
    pub fn step(&mut self, event: TickEvent) -> (r: TickAction)
        ensures
            (final(self).phase, r) == next(old(self).phase, event),
    {
        let (phase, action) = match self.phase {
            TickPhase::Done { outcome } => (TickPhase::Done { outcome }, TickAction::Finish),
            TickPhase::Admitted => match event {
                TickEvent::Started { registered } => if registered {
                    (TickPhase::Syncing, TickAction::Sync)
                } else {
                    (TickPhase::Bootstrapping, TickAction::Bootstrap)
                },
                _ => finished(TickOutcome::Aborted),
            },
            TickPhase::Bootstrapping => match event {
                TickEvent::Bootstrapped { ok } => if ok {
                    (TickPhase::Registering, TickAction::Register)
                } else {
                    finished(TickOutcome::BootstrapFailed)
                },
                _ => finished(TickOutcome::Aborted),
            },
            TickPhase::Registering => match event {
                TickEvent::Registered => (TickPhase::Syncing, TickAction::Sync),
                _ => finished(TickOutcome::Aborted),
            },
            TickPhase::Syncing => match event {
                TickEvent::Synced { previous, current } => if !(previous == current) {
                    (TickPhase::Deploying, TickAction::Deploy)
                } else {
                    (TickPhase::CheckingArtifact, TickAction::CheckArtifact)
                },
                TickEvent::SyncFailed => finished(TickOutcome::SyncFailed),
                _ => finished(TickOutcome::Aborted),
            },
            TickPhase::CheckingArtifact => match event {
                TickEvent::ArtifactChecked { present } => if present {
                    finished(TickOutcome::Ignored)
                } else {
                    (TickPhase::Deploying, TickAction::Deploy)
                },
                _ => finished(TickOutcome::Aborted),
            },
            TickPhase::Deploying => match event {
                TickEvent::Deployed { ok } => if ok {
                    (TickPhase::Reloading, TickAction::Reload)
                } else {
                    finished(TickOutcome::DeployFailed)
                },
                _ => finished(TickOutcome::Aborted),
            },
            TickPhase::Reloading => match event {
                TickEvent::Reloaded { ok } => (
                    TickPhase::ResolvingUnit { reloaded: ok },
                    TickAction::ResolveUnit,
                ),
                _ => finished(TickOutcome::Aborted),
            },
            TickPhase::ResolvingUnit { reloaded } => match event {
                TickEvent::UnitResolved { unit } => (
                    TickPhase::Restarting { reloaded },
                    TickAction::Restart { unit },
                ),
                TickEvent::UnitUnresolved => finished(TickOutcome::UnitNameFailed),
                _ => finished(TickOutcome::Aborted),
            },
            TickPhase::Restarting { reloaded } => match event {
                TickEvent::Restarted { ok } => finished(
                    TickOutcome::Deployed { reloaded, restarted: ok },
                ),
                _ => finished(TickOutcome::Aborted),
            },
        };
        self.phase = phase;
        action
    }
}

fn finished(outcome: TickOutcome) -> (r: (TickPhase, TickAction))
    ensures
        r == done(outcome),
{
    (TickPhase::Done { outcome }, TickAction::Finish)
}

} // verus!
