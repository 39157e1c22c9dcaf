use vstd::prelude::*;

use crate::driver::{
    failure_kind, pending_step, run_attempted, run_state, state_after, step_order, DriverState,
    Event, Step,
};
use crate::errors::ClientError;

verus! {

/// The state reached after the first `k` steps all succeeded.
pub open spec fn stage_state(k: nat) -> DriverState {
    if k == 0 {
        DriverState::Unbound
    } else if k == 1 {
        DriverState::Bound
    } else if k == 2 {
        DriverState::SessionPending
    } else if k == 3 {
        DriverState::SessionEstablished
    } else if k == 4 {
        DriverState::StreamOpen
    } else if k == 5 {
        DriverState::PayloadWritten
    } else {
        DriverState::Done
    }
}

/// The first `n` events all succeeded.
pub open spec fn all_succeeded(events: Seq<Event>, n: int) -> bool {
    forall|i: int| 0 <= i < n ==> #[trigger] events[i] == Event::Succeeded
}

proof fn lemma_stage_pending(k: nat)
    requires
        k < 6,
    ensures
        pending_step(stage_state(k)) == Some(step_order()[k as int]),
        state_after(step_order()[k as int]) == stage_state(k + 1),
{
}

/// After `k` successes from the start, the run stands at stage `k` and has
/// attempted the first `k` steps.
proof fn lemma_stage(events: Seq<Event>, k: nat)
    requires
        k <= 6,
        k <= events.len(),
        all_succeeded(events, k as int),
    ensures
        run_state(events.take(k as int)) == stage_state(k),
        run_attempted(events.take(k as int)) == step_order().take(k as int),
    decreases k,
{
    let t = events.take(k as int);
    if k == 0 {
        assert(step_order().take(0) =~= Seq::<Step>::empty());
    } else {
        lemma_stage(events, (k - 1) as nat);
        assert(t.drop_last() =~= events.take(k - 1));
        lemma_stage_pending((k - 1) as nat);
        assert(t.last() == events[k - 1]);
        assert(step_order().take(k - 1).push(step_order()[k - 1]) =~= step_order().take(k as int));
    }
}

/// Once a run has ended, later events change neither its state nor its
/// attempted steps.
proof fn lemma_stuck(events: Seq<Event>, j: int)
    requires
        0 <= j <= events.len(),
        pending_step(run_state(events.take(j))) is None,
    ensures
        run_state(events) == run_state(events.take(j)),
        run_attempted(events) == run_attempted(events.take(j)),
    decreases events.len(),
{
    if events.len() == j {
        assert(events.take(j) =~= events);
    } else {
        let prev = events.drop_last();
        assert(prev.take(j) =~= events.take(j));
        lemma_stuck(prev, j);
    }
}

/// The first failure decides the run: it stops at the failing step with
/// that step's kind, and the failing step is the last one attempted.
pub proof fn law_first_failure_decides(events: Seq<Event>, f: int)
    requires
        0 <= f < 6,
        f < events.len(),
        all_succeeded(events, f),
        events[f] != Event::Succeeded,
    ensures
        run_state(events) == DriverState::Failed(failure_kind(step_order()[f], events[f])),
        run_attempted(events) == step_order().take(f + 1),
{
    lemma_stage(events, f as nat);
    lemma_stage_pending(f as nat);
    let t = events.take(f + 1);
    assert(t.drop_last() =~= events.take(f));
    assert(t.last() == events[f]);
    assert(step_order().take(f).push(step_order()[f]) =~= step_order().take(f + 1));
    lemma_stuck(events, f + 1);
}

/// When the first six steps succeed the run completes, having attempted
/// every step once, in order.
pub proof fn law_complete_run(events: Seq<Event>)
    requires
        events.len() >= 6,
        all_succeeded(events, 6),
    ensures
        run_state(events) == DriverState::Done,
        run_attempted(events) == step_order(),
{
    lemma_stage(events, 6);
    assert(step_order().take(6) =~= step_order());
    lemma_stuck(events, 6);
}

proof fn lemma_shape(events: Seq<Event>)
    ensures
        run_attempted(events).len() <= 6,
        run_attempted(events).len() <= events.len(),
        run_attempted(events) == step_order().take(run_attempted(events).len() as int),
        all_succeeded(events, run_attempted(events).len() - 1),
        pending_step(run_state(events)) is Some ==> {
            &&& run_state(events) == stage_state(run_attempted(events).len())
            &&& run_attempted(events).len() == events.len()
            &&& run_attempted(events).len() < 6
            &&& all_succeeded(events, events.len() as int)
        },
    decreases events.len(),
{
    if events.len() == 0 {
        assert(step_order().take(0) =~= Seq::<Step>::empty());
    } else {
        let prev = events.drop_last();
        lemma_shape(prev);
        let a = run_attempted(prev);
        let n = a.len();
        assert forall|i: int| 0 <= i < prev.len() implies events[i] == prev[i] by {}
        if pending_step(run_state(prev)) is Some {
            lemma_stage_pending(n);
            assert(step_order().take(n as int).push(step_order()[n as int]) =~= step_order().take(
                n + 1 as int,
            ));
            assert(events.last() == events[n as int]);
            if events.last() == Event::Succeeded {
                assert(all_succeeded(events, events.len() as int));
            }
        }
    }
}

/// Steps run in the fixed order and none runs unless every earlier one
/// succeeded: the attempted steps are a prefix of bind, initiate, await,
/// open stream, write, finish, and each attempted step but the last was
/// handed a success.
pub proof fn law_attempted_is_prefix(events: Seq<Event>)
    ensures
        run_attempted(events).len() <= 6,
        run_attempted(events).len() <= events.len(),
        run_attempted(events).is_prefix_of(step_order()),
        all_succeeded(events, run_attempted(events).len() - 1),
{
    lemma_shape(events);
}

/// When constructing the transport context fails, the run reports
/// `QuicError` and nothing after session initiation is attempted.
pub proof fn law_context_failure(events: Seq<Event>)
    requires
        events.len() >= 2,
        events[0] == Event::Succeeded,
        events[1] == Event::ContextFailed,
    ensures
        run_state(events) == DriverState::Failed(ClientError::QuicError),
        run_attempted(events) == seq![Step::Bind, Step::Initiate],
{
    law_first_failure_decides(events, 1);
    assert(step_order().take(2) =~= seq![Step::Bind, Step::Initiate]);
}

/// When the context was built but the session attempt itself fails, the run
/// reports `LocallyClosed` and nothing after session initiation is
/// attempted.
pub proof fn law_initiation_failure(events: Seq<Event>)
    requires
        events.len() >= 2,
        events[0] == Event::Succeeded,
        events[1] == Event::Failed,
    ensures
        run_state(events) == DriverState::Failed(ClientError::LocallyClosed),
        run_attempted(events) == seq![Step::Bind, Step::Initiate],
{
    law_first_failure_decides(events, 1);
    assert(step_order().take(2) =~= seq![Step::Bind, Step::Initiate]);
}

/// When waiting for the session fails, the run reports `TimeOut` and no
/// stream is opened.
pub proof fn law_session_wait_failure(events: Seq<Event>)
    requires
        events.len() >= 3,
        all_succeeded(events, 2),
        events[2] != Event::Succeeded,
    ensures
        run_state(events) == DriverState::Failed(ClientError::TimeOut),
        !run_attempted(events).contains(Step::OpenStream),
{
    law_first_failure_decides(events, 2);
    let a = run_attempted(events);
    assert(a =~= seq![Step::Bind, Step::Initiate, Step::AwaitSession]);
    assert(forall|i: int| 0 <= i < a.len() ==> a[i] != Step::OpenStream);
}

/// When opening the stream fails, the run reports `StreamOpeningError` and
/// no write is attempted.
pub proof fn law_stream_failure(events: Seq<Event>)
    requires
        events.len() >= 4,
        all_succeeded(events, 3),
        events[3] != Event::Succeeded,
    ensures
        run_state(events) == DriverState::Failed(ClientError::StreamOpeningError),
        !run_attempted(events).contains(Step::Write),
{
    law_first_failure_decides(events, 3);
    let a = run_attempted(events);
    assert(a =~= seq![Step::Bind, Step::Initiate, Step::AwaitSession, Step::OpenStream]);
    assert(forall|i: int| 0 <= i < a.len() ==> a[i] != Step::Write);
}

/// A failed write and a failed finish are both reported as `TimeOut`.
pub proof fn law_write_or_finish_failure(events: Seq<Event>, f: int)
    requires
        f == 4 || f == 5,
        f < events.len(),
        all_succeeded(events, f),
        events[f] != Event::Succeeded,
    ensures
        run_state(events) == DriverState::Failed(ClientError::TimeOut),
{
    law_first_failure_decides(events, f);
}

/// The payload is written at most once in a run: no step is attempted
/// twice, and the write is attempted exactly when the four steps before it
/// succeeded and the run went on to it.
pub proof fn law_single_write(events: Seq<Event>)
    ensures
        forall|i: int, j: int|
            0 <= i < j < run_attempted(events).len() ==> run_attempted(events)[i]
                != run_attempted(events)[j],
        run_attempted(events).contains(Step::Write) <==> (events.len() >= 5 && all_succeeded(
            events,
            4,
        )),
{
    lemma_shape(events);
    let a = run_attempted(events);
    let n = a.len() as int;
    assert(a =~= step_order().take(n));
    if a.contains(Step::Write) {
        let k = choose|k: int| 0 <= k < n && a[k] == Step::Write;
        assert(k == 4);
    }
    if events.len() >= 5 && all_succeeded(events, 4) {
        if events[4] == Event::Succeeded {
            if events.len() > 5 && events[5] == Event::Succeeded {
                law_complete_run(events);
            } else if events.len() > 5 {
                law_first_failure_decides(events, 5);
            } else {
                lemma_stage(events, 5);
                assert(events.take(5) =~= events);
            }
        } else {
            law_first_failure_decides(events, 4);
        }
        assert(a[4] == Step::Write);
    }
}

} // verus!
