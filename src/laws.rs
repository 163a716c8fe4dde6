use vstd::prelude::*;

use crate::config::JobConfig;
use crate::registry::{admits, began, committed, ended, RegistryModel};
use crate::tick::{next, reached, redeploy, run, TickAction, TickEvent, TickOutcome, TickPhase};

verus! {

/// A registry operation, as the ticks of all jobs issue them.
pub ghost enum RegistryOp {
    Begin(u128),
    End(u128),
    Commit(u128, JobConfig),
}

/// The job a registry operation concerns.
pub open spec fn op_job(op: RegistryOp) -> u128 {
    match op {
        RegistryOp::Begin(id) => id,
        RegistryOp::End(id) => id,
        RegistryOp::Commit(id, _) => id,
    }
}

/// The registry after one operation.
pub open spec fn apply(r: RegistryModel, op: RegistryOp) -> RegistryModel {
    match op {
        RegistryOp::Begin(id) => if admits(r, id) {
            began(r, id)
        } else {
            r
        },
        RegistryOp::End(id) => ended(r, id),
        RegistryOp::Commit(id, c) => committed(r, id, c),
    }
}

/// The registry after a sequence of operations, in order.
pub open spec fn apply_all(r: RegistryModel, ops: Seq<RegistryOp>) -> RegistryModel
    decreases ops.len(),
{
    if ops.len() == 0 {
        r
    } else {
        apply_all(apply(r, ops[0]), ops.drop_first())
    }
}

/// Whether an action calls a collaborator of the deployment pipeline.
pub open spec fn touches_host(a: TickAction) -> bool {
    a is Deploy || a is Reload || a is Restart
}

/// Once a tick is over, every further event only asks it to finish.
pub proof fn lemma_done_stays_done(outcome: TickOutcome, events: Seq<TickEvent>)
    ensures
        forall|i: int|
            0 <= i < events.len() ==> #[trigger] run(TickPhase::Done { outcome }, events)[i]
                == TickAction::Finish,
        reached(TickPhase::Done { outcome }, events) == (TickPhase::Done { outcome }),
    decreases events.len(),
{
    lemma_run_len(TickPhase::Done { outcome }, events);
    if events.len() > 0 {
        lemma_done_stays_done(outcome, events.drop_first());
        lemma_run_len(TickPhase::Done { outcome }, events.drop_first());
        let p = TickPhase::Done { outcome };
        assert forall|i: int| 0 <= i < events.len() implies #[trigger] run(p, events)[i]
            == TickAction::Finish by {
            if i > 0 {
                assert(run(p, events)[i] == run(p, events.drop_first())[i - 1]);
            }
        }
    }
}

/// A tick asks for exactly one action per event.
pub proof fn lemma_run_len(p: TickPhase, events: Seq<TickEvent>)
    ensures
        run(p, events).len() == events.len(),
    decreases events.len(),
{
    if events.len() > 0 {
        lemma_run_len(next(p, events[0]).0, events.drop_first());
    }
}

/// Receiving `first` and then `rest` is one step followed by the run of `rest`.
pub proof fn lemma_run_cons(p: TickPhase, first: TickEvent, rest: Seq<TickEvent>)
    ensures
        run(p, seq![first] + rest).len() == rest.len() + 1,
        run(next(p, first).0, rest).len() == rest.len(),
        run(p, seq![first] + rest) == seq![next(p, first).1] + run(next(p, first).0, rest),
        reached(p, seq![first] + rest) == reached(next(p, first).0, rest),
{
    let evs = seq![first] + rest;
    assert(evs.drop_first() =~= rest);
    assert(evs[0] == first);
    lemma_run_len(next(p, first).0, rest);
    lemma_run_len(p, evs);
}

/// Operations on one job leave every other job's record and running mark as
/// they were: jobs with distinct identifiers share no registry state, whatever
/// their schedules.
pub proof fn lemma_jobs_independent(r: RegistryModel, op: RegistryOp, other: u128)
    requires
        op_job(op) != other,
    ensures
        apply(r, op).records.contains_key(other) == r.records.contains_key(other),
        r.records.contains_key(other) ==> apply(r, op).records[other] == r.records[other],
        apply(r, op).running.contains(other) == r.running.contains(other),
{
}

/// Records are never removed: once a job is bootstrapped it stays so under
/// any sequence of registry operations.
pub proof fn lemma_records_persist(r: RegistryModel, ops: Seq<RegistryOp>, id: u128)
    requires
        r.records.contains_key(id),
    ensures
        apply_all(r, ops).records.contains_key(id),
        apply_all(r, ops).records[id] == r.records[id],
    decreases ops.len(),
{
    if ops.len() > 0 {
        lemma_records_persist(apply(r, ops[0]), ops.drop_first(), id);
    }
}

/// At-most-once bootstrap. A successful bootstrap is followed by recording the
/// job; a recorded job stays recorded under any later registry operations;
/// and a tick of a recorded job never asks for a bootstrap.
pub proof fn lemma_bootstrap_at_most_once(
    r: RegistryModel,
    id: u128,
    config: JobConfig,
    ops: Seq<RegistryOp>,
    rest: Seq<TickEvent>,
)
    ensures
        next(TickPhase::Bootstrapping, TickEvent::Bootstrapped { ok: true }).1
            == TickAction::Register,
        apply_all(committed(r, id, config), ops).records.contains_key(id),
        forall|i: int|
            0 <= i < rest.len() + 1 ==> #[trigger] run(
                TickPhase::Admitted,
                seq![
                    TickEvent::Started {
                        registered: apply_all(committed(r, id, config), ops).records.contains_key(
                            id,
                        ),
                    },
                ] + rest,
            )[i] != TickAction::Bootstrap,
{
    let c = committed(r, id, config);
    lemma_records_persist(c, ops, id);
    let started = TickEvent::Started { registered: true };
    lemma_run_cons(TickPhase::Admitted, started, rest);
    lemma_never_bootstraps_after(TickPhase::Syncing, rest);
}

/// Whether a phase lies past bootstrapping.
pub open spec fn past_bootstrap(p: TickPhase) -> bool {
    !(p is Admitted) && !(p is Bootstrapping)
}

/// From any phase past bootstrapping, a tick never asks for a bootstrap.
pub proof fn lemma_never_bootstraps_after(p: TickPhase, events: Seq<TickEvent>)
    requires
        past_bootstrap(p),
    ensures
        forall|i: int| 0 <= i < events.len() ==> #[trigger] run(p, events)[i] != TickAction::Bootstrap,
    decreases events.len(),
{
    lemma_run_len(p, events);
    if events.len() > 0 {
        let q = next(p, events[0]).0;
        lemma_never_bootstraps_after(q, events.drop_first());
        lemma_run_len(q, events.drop_first());
        assert forall|i: int| 0 <= i < events.len() implies #[trigger] run(p, events)[i]
            != TickAction::Bootstrap by {
            if i > 0 {
                assert(run(p, events)[i] == run(q, events.drop_first())[i - 1]);
            }
        }
    }
}

/// With unchanged content identifiers and the artifact already deployed, the
/// tick ends as ignored, and no deploy, reload or restart is asked for.
pub proof fn lemma_unchanged_and_present_is_ignored(
    previous: String,
    current: String,
    rest: Seq<TickEvent>,
)
    requires
        previous@ == current@,
    ensures
        ({
            let evs = seq![
                TickEvent::Synced { previous, current },
                TickEvent::ArtifactChecked { present: true },
            ] + rest;
            &&& reached(TickPhase::Syncing, evs) == (TickPhase::Done {
                outcome: TickOutcome::Ignored,
            })
            &&& forall|i: int|
                0 <= i < evs.len() ==> !touches_host(#[trigger] run(TickPhase::Syncing, evs)[i])
        }),
{
    let synced = TickEvent::Synced { previous, current };
    let checked = TickEvent::ArtifactChecked { present: true };
    let tail = seq![checked] + rest;
    assert(seq![synced, checked] + rest =~= seq![synced] + tail);
    lemma_run_cons(TickPhase::Syncing, synced, tail);
    lemma_run_cons(TickPhase::CheckingArtifact, checked, rest);
    lemma_done_stays_done(TickOutcome::Ignored, rest);
    let evs = seq![synced] + tail;
    assert forall|i: int| 0 <= i < evs.len() implies !touches_host(
        #[trigger] run(TickPhase::Syncing, evs)[i],
    ) by {
        if i >= 2 {
            assert(run(TickPhase::Syncing, evs)[i] == run(
                TickPhase::Done { outcome: TickOutcome::Ignored },
                rest,
            )[i - 2]);
        }
    }
}

/// After a successful sync, the tick ends as ignored exactly when no
/// redeploy is due: the content is unchanged and the artifact is present.
pub proof fn lemma_ignored_iff_no_redeploy(previous: String, current: String, present: bool)
    ensures
        (reached(
            TickPhase::Syncing,
            seq![
                TickEvent::Synced { previous, current },
                TickEvent::ArtifactChecked { present },
            ],
        ) == TickPhase::Done { outcome: TickOutcome::Ignored }) == !redeploy(
            previous@,
            current@,
            present,
        ),
{
    let e0 = TickEvent::Synced { previous, current };
    let e1 = TickEvent::ArtifactChecked { present };
    let s1: Seq<TickEvent> = seq![e1];
    assert(seq![e0, e1] =~= seq![e0] + s1);
    assert(s1 =~= seq![e1] + Seq::<TickEvent>::empty());
    lemma_run_cons(TickPhase::Syncing, e0, s1);
    lemma_run_cons(next(TickPhase::Syncing, e0).0, e1, Seq::empty());
}

/// A job's first tick, with a successful bootstrap and equal content
/// identifiers, still deploys when the artifact is absent.
pub proof fn lemma_absent_artifact_deploys(previous: String, current: String)
    requires
        previous@ == current@,
    ensures
        run(
            TickPhase::Admitted,
            seq![
                TickEvent::Started { registered: false },
                TickEvent::Bootstrapped { ok: true },
                TickEvent::Registered,
                TickEvent::Synced { previous, current },
                TickEvent::ArtifactChecked { present: false },
            ],
        ) == seq![
            TickAction::Bootstrap,
            TickAction::Register,
            TickAction::Sync,
            TickAction::CheckArtifact,
            TickAction::Deploy,
        ],
        redeploy(previous@, current@, false),
{
    let e0 = TickEvent::Started { registered: false };
    let e1 = TickEvent::Bootstrapped { ok: true };
    let e2 = TickEvent::Registered;
    let e3 = TickEvent::Synced { previous, current };
    let e4 = TickEvent::ArtifactChecked { present: false };
    let s4: Seq<TickEvent> = seq![e4];
    assert(seq![e0, e1, e2, e3, e4] =~= seq![e0] + (seq![e1] + (seq![e2] + (seq![e3] + s4))));
    lemma_run_cons(TickPhase::Admitted, e0, seq![e1] + (seq![e2] + (seq![e3] + s4)));
    lemma_run_cons(TickPhase::Bootstrapping, e1, seq![e2] + (seq![e3] + s4));
    lemma_run_cons(TickPhase::Registering, e2, seq![e3] + s4);
    lemma_run_cons(TickPhase::Syncing, e3, s4);
    lemma_run_cons(TickPhase::CheckingArtifact, e4, Seq::empty());
    assert(s4 =~= seq![e4] + Seq::<TickEvent>::empty());
    assert(run(
        TickPhase::Admitted,
        seq![e0, e1, e2, e3, e4],
    ) =~= seq![
        TickAction::Bootstrap,
        TickAction::Register,
        TickAction::Sync,
        TickAction::CheckArtifact,
        TickAction::Deploy,
    ]);
}

/// Changed content identifiers lead straight to deployment, whether or not
/// the artifact is present: no presence check is even asked for.
pub proof fn lemma_changed_content_deploys(previous: String, current: String, present: bool)
    requires
        previous@ != current@,
    ensures
        next(TickPhase::Syncing, TickEvent::Synced { previous, current }) == (
            TickPhase::Deploying,
            TickAction::Deploy,
        ),
        redeploy(previous@, current@, present),
{
}

/// A failed deploy ends the tick: no reload or restart follows.
pub proof fn lemma_deploy_failure_stops(rest: Seq<TickEvent>)
    ensures
        ({
            let evs = seq![TickEvent::Deployed { ok: false }] + rest;
            &&& reached(TickPhase::Deploying, evs) == (TickPhase::Done {
                outcome: TickOutcome::DeployFailed,
            })
            &&& forall|i: int|
                0 <= i < evs.len() ==> #[trigger] run(TickPhase::Deploying, evs)[i]
                    == TickAction::Finish
        }),
{
    let failed = TickEvent::Deployed { ok: false };
    lemma_run_cons(TickPhase::Deploying, failed, rest);
    lemma_done_stays_done(TickOutcome::DeployFailed, rest);
    let evs = seq![failed] + rest;
    assert forall|i: int| 0 <= i < evs.len() implies #[trigger] run(TickPhase::Deploying, evs)[i]
        == TickAction::Finish by {
        if i >= 1 {
            assert(run(TickPhase::Deploying, evs)[i] == run(
                TickPhase::Done { outcome: TickOutcome::DeployFailed },
                rest,
            )[i - 1]);
        }
    }
}

/// When no unit name can be derived, no restart is asked for, whatever the
/// reload's result.
pub proof fn lemma_unresolved_unit_stops(reloaded: bool, rest: Seq<TickEvent>)
    ensures
        ({
            let evs = seq![TickEvent::Reloaded { ok: reloaded }, TickEvent::UnitUnresolved]
                + rest;
            &&& reached(TickPhase::Reloading, evs) == (TickPhase::Done {
                outcome: TickOutcome::UnitNameFailed,
            })
            &&& forall|i: int|
                0 <= i < evs.len() ==> !(#[trigger] run(TickPhase::Reloading, evs)[i] is Restart)
        }),
{
    let reload = TickEvent::Reloaded { ok: reloaded };
    let unresolved = TickEvent::UnitUnresolved;
    let tail = seq![unresolved] + rest;
    assert(seq![reload, unresolved] + rest =~= seq![reload] + tail);
    lemma_run_cons(TickPhase::Reloading, reload, tail);
    lemma_run_cons(TickPhase::ResolvingUnit { reloaded }, unresolved, rest);
    lemma_done_stays_done(TickOutcome::UnitNameFailed, rest);
    let evs = seq![reload] + tail;
    assert forall|i: int| 0 <= i < evs.len() implies !(#[trigger] run(
        TickPhase::Reloading,
        evs,
    )[i] is Restart) by {
        if i >= 2 {
            assert(run(TickPhase::Reloading, evs)[i] == run(
                TickPhase::Done { outcome: TickOutcome::UnitNameFailed },
                rest,
            )[i - 2]);
        }
    }
}

/// No overlap of a job's ticks: once a tick of `id` is admitted, every later
/// trigger of `id` is skipped until that tick ends, whatever other jobs do.
pub proof fn lemma_no_overlap(r: RegistryModel, id: u128, ops: Seq<RegistryOp>)
    requires
        admits(r, id),
        forall|i: int| 0 <= i < ops.len() ==> ops[i] != RegistryOp::End(id),
    ensures
        !admits(apply_all(began(r, id), ops), id),
{
    lemma_running_kept(began(r, id), id, ops);
}

/// A running mark stays until its job's tick ends.
pub proof fn lemma_running_kept(r: RegistryModel, id: u128, ops: Seq<RegistryOp>)
    requires
        r.running.contains(id),
        forall|i: int| 0 <= i < ops.len() ==> ops[i] != RegistryOp::End(id),
    ensures
        apply_all(r, ops).running.contains(id),
    decreases ops.len(),
{
    if ops.len() > 0 {
        assert(ops[0] != RegistryOp::End(id));
        let rest = ops.drop_first();
        assert forall|i: int| 0 <= i < rest.len() implies rest[i] != RegistryOp::End(id) by {
            assert(rest[i] == ops[i + 1]);
        }
        lemma_running_kept(apply(r, ops[0]), id, rest);
    }
}

} // verus!
