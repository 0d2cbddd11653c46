//! A session driven by a whole sequence of events, and what holds of every
//! such run: which calls it asks for, how often, and which outcome it hands
//! out.

use vstd::prelude::*;
use crate::classify::{
    is_terminal, lemma_success_not_retry, retry_codes, success_code, OperationKind,
};
use crate::finger::FingerName;
use crate::session::{lemma_next_wf, ActionModel, EventModel, OutcomeModel, Phase, SessionModel, counted};

verus! {

/// The session after feeding it `evs` in order.
pub open spec fn run(m: SessionModel, evs: Seq<EventModel>) -> SessionModel
    decreases evs.len(),
{
    if evs.len() == 0 {
        m
    } else {
        run(m.next(evs[0]).0, evs.drop_first())
    }
}

/// The actions the session returns while it is fed `evs`, one per event.
pub open spec fn actions(m: SessionModel, evs: Seq<EventModel>) -> Seq<ActionModel>
    decreases evs.len(),
{
    if evs.len() == 0 {
        Seq::empty()
    } else {
        let (m2, a) = m.next(evs[0]);
        seq![a] + actions(m2, evs.drop_first())
    }
}

/// How many of `acts` ask for a stop.
pub open spec fn stops_in(acts: Seq<ActionModel>) -> nat
    decreases acts.len(),
{
    if acts.len() == 0 {
        0
    } else {
        counted(acts[0] is Stop) + stops_in(acts.drop_first())
    }
}

/// How many of `acts` ask for a release.
pub open spec fn releases_in(acts: Seq<ActionModel>) -> nat
    decreases acts.len(),
{
    if acts.len() == 0 {
        0
    } else {
        counted(acts[0] is Release) + releases_in(acts.drop_first())
    }
}

/// How many of `acts` hand out an outcome.
pub open spec fn deliveries_in(acts: Seq<ActionModel>) -> nat
    decreases acts.len(),
{
    if acts.len() == 0 {
        0
    } else {
        counted(acts[0] is Deliver) + deliveries_in(acts.drop_first())
    }
}

/// A status event that leaves the listening loop running.
pub open spec fn is_noise(kind: OperationKind, e: EventModel) -> bool {
    match e {
        EventModel::Status(code, done) => !is_terminal(kind, code, done),
        _ => false,
    }
}

/// One step asks for a stop, a release or a delivery exactly when it counts
/// one in the history.
proof fn lemma_step_counts(m: SessionModel, e: EventModel)
    requires
        m.wf(),
    ensures
        m.next(e).0.history.stops == m.history.stops + counted(m.next(e).1 is Stop),
        m.next(e).0.history.releases == m.history.releases + counted(m.next(e).1 is Release),
        m.next(e).0.history.deliveries == m.history.deliveries + counted(
            m.next(e).1 is Deliver,
        ),
{
}

/// A run stays well formed, and its history counts exactly the stops,
/// releases and deliveries among the actions it returned.
pub proof fn lemma_run_counts(m: SessionModel, evs: Seq<EventModel>)
    requires
        m.wf(),
    ensures
        run(m, evs).wf(),
        run(m, evs).history.stops == m.history.stops + stops_in(actions(m, evs)),
        run(m, evs).history.releases == m.history.releases + releases_in(actions(m, evs)),
        run(m, evs).history.deliveries == m.history.deliveries + deliveries_in(actions(m, evs)),
    decreases evs.len(),
{
    if evs.len() > 0 {
        let (m2, a) = m.next(evs[0]);
        lemma_next_wf(m, evs[0]);
        lemma_step_counts(m, evs[0]);
        lemma_run_counts(m2, evs.drop_first());
        let acts = actions(m, evs);
        assert(acts[0] == a);
        assert(acts.drop_first() =~= actions(m2, evs.drop_first()));
    }
}

/// Feeding two sequences one after the other is feeding their concatenation.
pub proof fn lemma_run_concat(m: SessionModel, a: Seq<EventModel>, b: Seq<EventModel>)
    ensures
        run(m, a + b) == run(run(m, a), b),
    decreases a.len(),
{
    if a.len() == 0 {
        assert(a + b =~= b);
    } else {
        assert((a + b).drop_first() =~= a.drop_first() + b);
        lemma_run_concat(m.next(a[0]).0, a.drop_first(), b);
    }
}

/// Once a session's outcome is fixed, no later event changes it.
pub proof fn lemma_outcome_fixed(m: SessionModel, evs: Seq<EventModel>)
    requires
        m.wf(),
        m.outcome is Some,
    ensures
        run(m, evs).outcome == m.outcome,
    decreases evs.len(),
{
    if evs.len() > 0 {
        lemma_next_wf(m, evs[0]);
        lemma_outcome_fixed(m.next(evs[0]).0, evs.drop_first());
    }
}

/// A listening session stays exactly as it is through status events that
/// are progress or retry signals.
pub proof fn lemma_noise_ignored(m: SessionModel, noise: Seq<EventModel>)
    requires
        m.wf(),
        m.phase == Phase::Listening,
        forall|i: int| 0 <= i < noise.len() ==> is_noise(m.kind, #[trigger] noise[i]),
    ensures
        run(m, noise) == m,
    decreases noise.len(),
{
    if noise.len() > 0 {
        lemma_success_not_retry(m.kind);
        assert(is_noise(m.kind, noise[0]));
        assert(m.next(noise[0]).0 == m);
        lemma_noise_ignored(m, noise.drop_first());
    }
}

/// A listening session that receives a done event with a retry code keeps
/// listening, unchanged.
pub proof fn lemma_retry_keeps_listening(m: SessionModel, code: Seq<char>)
    requires
        m.wf(),
        m.phase == Phase::Listening,
        retry_codes(m.kind).contains(code),
    ensures
        m.next(EventModel::Status(code, true)) == (m, ActionModel::Listen),
{
    lemma_success_not_retry(m.kind);
}

/// A listening session that receives a done event whose code is neither the
/// success code nor a retry code fails with that code unchanged, asks for
/// the stop, and consumes no further status event.
pub proof fn lemma_failure_keeps_code(
    m: SessionModel,
    code: Seq<char>,
    later: Seq<EventModel>,
)
    requires
        m.wf(),
        m.phase == Phase::Listening,
        code != success_code(m.kind),
        !retry_codes(m.kind).contains(code),
    ensures
        ({
            let (m2, a) = m.next(EventModel::Status(code, true));
            &&& m2.outcome == Some(OutcomeModel::Failure(code))
            &&& m2.phase == Phase::Stopping
            &&& a == ActionModel::Stop(m.kind)
            &&& forall|c: Seq<char>, d: bool| #[trigger]
                m2.next(EventModel::Status(c, d)) == (m2, ActionModel::Nothing)
            &&& run(m2, later).outcome == Some(OutcomeModel::Failure(code))
        }),
{
    let m2 = m.next(EventModel::Status(code, true)).0;
    lemma_next_wf(m, EventModel::Status(code, true));
    lemma_outcome_fixed(m2, later);
}

/// Whatever progress and retry events come first, a session whose first
/// terminal event carries the success code succeeds, and nothing after that
/// changes its outcome.
pub proof fn lemma_success_after_noise(
    kind: OperationKind,
    finger: FingerName,
    noise: Seq<EventModel>,
    later: Seq<EventModel>,
)
    requires
        forall|i: int| 0 <= i < noise.len() ==> is_noise(kind, #[trigger] noise[i]),
    ensures
        run(
            SessionModel::claiming(kind, finger),
            seq![EventModel::ClaimOk, EventModel::StartOk] + noise + seq![
                EventModel::Status(success_code(kind), true),
            ] + later,
        ).outcome == Some(OutcomeModel::Success),
{
    let m0 = SessionModel::claiming(kind, finger);
    let opening = seq![EventModel::ClaimOk, EventModel::StartOk];
    let hit = seq![EventModel::Status(success_code(kind), true)];
    let listening = run(m0, opening);
    let m1 = m0.next(EventModel::ClaimOk).0;
    let m2 = m1.next(EventModel::StartOk).0;
    assert(opening.drop_first() =~= seq![EventModel::StartOk]);
    assert(opening.drop_first().drop_first() =~= Seq::<EventModel>::empty());
    assert(run(m1, opening.drop_first()) == run(m2, opening.drop_first().drop_first()));
    assert(listening == m2);
    assert(listening.phase == Phase::Listening);
    assert(listening.wf());
    lemma_noise_ignored(listening, noise);
    lemma_run_concat(m0, opening, noise);
    lemma_run_concat(m0, opening + noise, hit);
    lemma_run_concat(m0, opening + noise + hit, later);
    let after = run(listening, hit);
    assert(hit.drop_first() =~= Seq::<EventModel>::empty());
    let stopped = listening.next(hit[0]).0;
    assert(run(listening, hit) == run(stopped, hit.drop_first()));
    assert(run(stopped, Seq::<EventModel>::empty()) == stopped);
    assert(after == stopped);
    lemma_next_wf(listening, hit[0]);
    assert(after.outcome == Some(OutcomeModel::Success));
    lemma_outcome_fixed(after, later);
}

/// From the claim on, a session asks for at most one release, only if its
/// claim succeeded, and, once done, exactly one if its claim succeeded.
pub proof fn lemma_release_once(kind: OperationKind, finger: FingerName, evs: Seq<EventModel>)
    ensures
        ({
            let m0 = SessionModel::claiming(kind, finger);
            let m = run(m0, evs);
            let n = releases_in(actions(m0, evs));
            &&& n <= 1
            &&& n == 1 ==> m.history.claim_ok
            &&& m.phase == Phase::Done ==> n == counted(m.history.claim_ok)
        }),
{
    lemma_run_counts(SessionModel::claiming(kind, finger), evs);
}

/// A session asks for at most one stop, only if its start succeeded, and
/// exactly one once it has left listening after a successful start.
pub proof fn lemma_stop_once(kind: OperationKind, finger: FingerName, evs: Seq<EventModel>)
    ensures
        ({
            let m0 = SessionModel::claiming(kind, finger);
            let m = run(m0, evs);
            let n = stops_in(actions(m0, evs));
            &&& n <= 1
            &&& n == 1 ==> m.history.start_ok
            &&& m.history.start_ok && m.phase != Phase::Listening ==> n == 1
        }),
{
    lemma_run_counts(SessionModel::claiming(kind, finger), evs);
}

/// A session hands out at most one outcome, exactly when it is done.
pub proof fn lemma_one_outcome(kind: OperationKind, finger: FingerName, evs: Seq<EventModel>)
    ensures
        ({
            let m0 = SessionModel::claiming(kind, finger);
            let n = deliveries_in(actions(m0, evs));
            &&& n <= 1
            &&& n == 1 <==> run(m0, evs).phase == Phase::Done
        }),
{
    lemma_run_counts(SessionModel::claiming(kind, finger), evs);
}

/// A cancel request that arrives once the outcome is fixed changes nothing
/// and asks for nothing.
pub proof fn lemma_late_cancel(m: SessionModel)
    requires
        m.wf(),
        m.outcome is Some,
    ensures
        m.next(EventModel::Cancel) == (m, ActionModel::Nothing),
{
}

} // verus!
