//! What holds of whole runs of a sleeper.
use vstd::prelude::*;

use crate::ticks::SleepRequest;
use crate::timer::{accepts, holds_handle, transition, Action, Event, Phase};

verus! {

/// Every event of `evs`, fed in order from phase `p`, is accepted.
pub open spec fn accepts_all(p: Phase, evs: Seq<Event>) -> bool
    decreases evs.len(),
{
    evs.len() == 0 || (accepts(p, evs[0]) && accepts_all(transition(p, evs[0]).0, evs.drop_first()))
}

/// The phase reached by feeding `evs` in order from phase `p`.
pub open spec fn final_phase(p: Phase, evs: Seq<Event>) -> Phase
    decreases evs.len(),
{
    if evs.len() == 0 {
        p
    } else {
        final_phase(transition(p, evs[0]).0, evs.drop_first())
    }
}

/// The actions returned, one per event, while feeding `evs` from phase `p`.
pub open spec fn actions(p: Phase, evs: Seq<Event>) -> Seq<Action>
    decreases evs.len(),
{
    if evs.len() == 0 {
        Seq::empty()
    } else {
        seq![transition(p, evs[0]).1] + actions(transition(p, evs[0]).0, evs.drop_first())
    }
}

/// How many of `acts` ask for the handle to be released.
pub open spec fn close_count(acts: Seq<Action>) -> nat
    decreases acts.len(),
{
    if acts.len() == 0 {
        0
    } else {
        (if acts[0] == Action::Close { 1nat } else { 0nat }) + close_count(acts.drop_first())
    }
}

/// The phase comes after a release was asked for.
pub open spec fn released(p: Phase) -> bool {
    p == Phase::Closing || p == Phase::Closed
}

proof fn lemma_close_count_invariant(p: Phase, evs: Seq<Event>)
    requires
        accepts_all(p, evs),
    ensures
        close_count(actions(p, evs)) + (if released(p) { 1int } else { 0int })
            == (if released(final_phase(p, evs)) { 1int } else { 0int }),
    decreases evs.len(),
{
    if evs.len() > 0 {
        let (q, a) = transition(p, evs[0]);
        lemma_close_count_invariant(q, evs.drop_first());
        let acts = actions(p, evs);
        assert(acts.drop_first() =~= actions(q, evs.drop_first()));
        assert(acts[0] == a);
    }
}

proof fn lemma_drop_releases(p: Phase, evs: Seq<Event>, i: int)
    requires
        accepts_all(p, evs),
        holds_handle(p) || released(p),
        0 <= i < evs.len(),
        evs[i] == Event::Dropped,
    ensures
        released(final_phase(p, evs)),
    decreases evs.len(),
{
    let q = transition(p, evs[0]).0;
    if i == 0 {
        lemma_stays_released(q, evs.drop_first());
    } else {
        lemma_drop_releases(q, evs.drop_first(), i - 1);
    }
}

proof fn lemma_stays_released(p: Phase, evs: Seq<Event>)
    requires
        accepts_all(p, evs),
        released(p),
    ensures
        released(final_phase(p, evs)),
    decreases evs.len(),
{
    if evs.len() > 0 {
        lemma_stays_released(transition(p, evs[0]).0, evs.drop_first());
    }
}

/// A sleeper releases its timer handle at most once over any run, however
/// many sleeps it made and whether any of them failed; once its handle was
/// obtained, destroying it releases the handle exactly once; and when no
/// handle was obtained nothing is released.
pub proof fn lemma_release_once(evs: Seq<Event>)
    requires
        accepts_all(Phase::Opening, evs),
    ensures
        close_count(actions(Phase::Opening, evs)) <= 1,
        evs.len() > 0 && evs[0] == (Event::Created { ok: true }) && evs.contains(Event::Dropped)
            ==> close_count(actions(Phase::Opening, evs)) == 1,
        evs.len() > 0 && evs[0] == (Event::Created { ok: false })
            ==> close_count(actions(Phase::Opening, evs)) == 0,
{
    lemma_close_count_invariant(Phase::Opening, evs);
    if evs.len() > 0 {
        let q = transition(Phase::Opening, evs[0]).0;
        let rest = evs.drop_first();
        if evs[0] == (Event::Created { ok: true }) && evs.contains(Event::Dropped) {
            let i = choose|i: int| 0 <= i < evs.len() && evs[i] == Event::Dropped;
            assert(i != 0);
            assert(rest[i - 1] == Event::Dropped);
            lemma_drop_releases(q, rest, i - 1);
        }
        if evs[0] == (Event::Created { ok: false }) {
            lemma_never_opened(q, rest);
        }
    }
}

proof fn lemma_never_opened(p: Phase, evs: Seq<Event>)
    requires
        accepts_all(p, evs),
        p == Phase::Unopened,
    ensures
        final_phase(p, evs) == Phase::Unopened,
    decreases evs.len(),
{
    if evs.len() > 0 {
        lemma_never_opened(transition(p, evs[0]).0, evs.drop_first());
    }
}

/// The events of one successful sleep for `req`.
pub open spec fn sleep_events(req: SleepRequest) -> Seq<Event> {
    seq![Event::Sleep { req }, Event::Armed { ok: true }, Event::Waited { ok: true }]
}

/// The actions of one successful sleep for `req`.
pub open spec fn sleep_actions(req: SleepRequest) -> Seq<Action> {
    seq![Action::Arm { due: (-req.tick_count()) as i64 }, Action::Wait, Action::Done]
}

proof fn lemma_one_sleep(req: SleepRequest, later: Seq<Event>)
    requires
        req.wf(),
        req.fits(),
    ensures
        accepts_all(Phase::Idle, sleep_events(req) + later)
            == accepts_all(Phase::Idle, later),
        final_phase(Phase::Idle, sleep_events(req) + later)
            == final_phase(Phase::Idle, later),
        actions(Phase::Idle, sleep_events(req) + later)
            == sleep_actions(req) + actions(Phase::Idle, later),
{
    let evs = sleep_events(req) + later;
    let e1 = evs.drop_first();
    let e2 = e1.drop_first();
    let e3 = e2.drop_first();
    assert(e3 =~= later);
    assert(evs[0] == Event::Sleep { req });
    assert(e1[0] == Event::Armed { ok: true });
    assert(e2[0] == Event::Waited { ok: true });
    let a0 = Action::Arm { due: (-req.tick_count()) as i64 };
    assert(transition(Phase::Idle, evs[0]) == (Phase::Arming, a0));
    assert(accepts_all(Phase::Waiting, e2) == accepts_all(Phase::Idle, later));
    assert(accepts_all(Phase::Arming, e1) == accepts_all(Phase::Idle, later));
    assert(final_phase(Phase::Waiting, e2) == final_phase(Phase::Idle, later));
    assert(final_phase(Phase::Arming, e1) == final_phase(Phase::Idle, later));
    assert(actions(Phase::Waiting, e2) =~= seq![Action::Done] + actions(Phase::Idle, later));
    assert(actions(Phase::Arming, e1) =~= seq![Action::Wait, Action::Done] + actions(
        Phase::Idle,
        later,
    ));
    assert(actions(Phase::Idle, evs) =~= sleep_actions(req) + actions(Phase::Idle, later));
}

/// A sleeper that has come back to idle after any history serves two sleeps
/// in a row, each one armed with its own request's deadline alone, and is
/// idle again after them: nothing carries over from one call to the next.
pub proof fn lemma_reuse(history: Seq<Event>, d0: SleepRequest, d1: SleepRequest)
    requires
        accepts_all(Phase::Opening, history),
        final_phase(Phase::Opening, history) == Phase::Idle,
        d0.wf(),
        d0.fits(),
        d1.wf(),
        d1.fits(),
    ensures
        accepts_all(Phase::Idle, sleep_events(d0) + sleep_events(d1)),
        final_phase(Phase::Idle, sleep_events(d0) + sleep_events(d1)) == Phase::Idle,
        actions(Phase::Idle, sleep_events(d0) + sleep_events(d1))
            == sleep_actions(d0) + sleep_actions(d1),
{
    let none = Seq::<Event>::empty();
    lemma_one_sleep(d1, none);
    assert(sleep_events(d1) + none =~= sleep_events(d1));
    assert(sleep_actions(d1) + actions(Phase::Idle, none) =~= sleep_actions(d1));
    lemma_one_sleep(d0, sleep_events(d1));
}

/// A request converts exactly when its whole seconds stay below
/// 922_337_203_685, or equal it with fewer than 477_580_800 nanoseconds:
/// the largest tick count that a signed 64-bit integer holds.
pub proof fn lemma_conversion_boundary(req: SleepRequest)
    requires
        req.wf(),
    ensures
        req.fits() <==> (req.secs < 922_337_203_685 || (req.secs == 922_337_203_685
            && req.nanos < 477_580_800)),
{
    let s = req.secs as int;
    let n = req.nanos as int;
    assert(0 <= n / 100 < 10_000_000);
    if s < 922_337_203_685 {
        assert(s * 10_000_000 <= 922_337_203_684 * 10_000_000) by (nonlinear_arith)
            requires
                s <= 922_337_203_684,
        ;
    } else if s > 922_337_203_685 {
        assert(s * 10_000_000 >= 922_337_203_686 * 10_000_000) by (nonlinear_arith)
            requires
                s >= 922_337_203_686,
        ;
    }
}

} // verus!
