//! What holds of a worker's cache over any run of events: a loaded model is
//! kept for good, a failed load leaves the slot empty for the next call, and
//! the outcome of a call depends on its own inference alone.

use vstd::prelude::*;

use crate::bridge::{action_for, next_slot, Action, Event, VectorizeError};
use crate::embedding::EMBEDDING_DIM;

verus! {

/// The slot of a worker that started at `slot` and has taken `events` in order.
pub open spec fn slot_after<M, V>(slot: Option<M>, events: Seq<Event<M, V>>) -> Option<M>
    decreases events.len(),
{
    if events.len() == 0 {
        slot
    } else {
        next_slot(slot_after(slot, events.drop_last()), events.last())
    }
}

/// The action the worker is told to take on the `i`-th of `events`.
pub open spec fn action_at<M, V>(slot: Option<M>, events: Seq<Event<M, V>>, i: int) -> Action<V> {
    action_for(slot_after(slot, events.take(i)), events[i])
}

/// Once a worker holds a model, no event takes it away or replaces it.
pub proof fn lemma_loaded_model_kept<M, V>(m: M, events: Seq<Event<M, V>>)
    ensures
        slot_after(Some(m), events) == Some(m),
    decreases events.len(),
{
    if events.len() > 0 {
        lemma_loaded_model_kept(m, events.drop_last());
    }
}

/// A worker that holds a model is never told to load again, whatever follows,
/// failed inferences included, and it keeps that same model throughout.
pub proof fn lemma_loaded_never_reloads<M, V>(m: M, events: Seq<Event<M, V>>)
    ensures
        slot_after(Some(m), events) == Some(m),
        forall|i: int| 0 <= i < events.len() ==> action_at(Some(m), events, i) != Action::<V>::Load,
{
    lemma_loaded_model_kept(m, events);
    assert forall|i: int| 0 <= i < events.len() implies action_at(Some(m), events, i)
        != Action::<V>::Load by {
        lemma_loaded_model_kept(m, events.take(i));
    }
}

/// An empty worker is told to load on the first call, keeps the model that
/// load returns, and is never told to load again, whatever events follow.
pub proof fn lemma_exactly_one_load<M, V>(m: M, rest: Seq<Event<M, V>>)
    ensures
        ({
            let events = seq![Event::<M, V>::Begin, Event::<M, V>::Loaded(Ok(m))] + rest;
            &&& slot_after(None::<M>, events) == Some(m)
            &&& action_at(None::<M>, events, 0) == Action::<V>::Load
            &&& forall|i: int|
                1 <= i < events.len() ==> action_at(None::<M>, events, i) != Action::<V>::Load
        }),
{
    let start = seq![Event::<M, V>::Begin, Event::<M, V>::Loaded(Ok(m))];
    let events = start + rest;
    assert(events.take(0) =~= Seq::<Event<M, V>>::empty());
    assert(events.take(1).drop_last() =~= Seq::<Event<M, V>>::empty());
    assert(events.take(1).last() == Event::<M, V>::Begin);
    assert(slot_after(None::<M>, events.take(1)) == None::<M>);
    assert(events.take(2).drop_last() =~= events.take(1));
    assert(slot_after(None::<M>, events.take(2)) == Some(m));
    lemma_slot_after_append(None::<M>, events.take(2), rest);
    assert(events.take(2) + rest =~= events);
    lemma_loaded_never_reloads(m, rest);
    assert forall|i: int| 1 <= i < events.len() implies action_at(None::<M>, events, i)
        != Action::<V>::Load by {
        if i >= 2 {
            assert(events.take(i) =~= events.take(2) + rest.take(i - 2));
            lemma_slot_after_append(None::<M>, events.take(2), rest.take(i - 2));
            lemma_loaded_model_kept(m, rest.take(i - 2));
        }
    }
}

/// Running two runs of events one after the other is running the first, then
/// the second from where the first left the slot.
pub proof fn lemma_slot_after_append<M, V>(
    slot: Option<M>,
    first: Seq<Event<M, V>>,
    second: Seq<Event<M, V>>,
)
    ensures
        slot_after(slot, first + second) == slot_after(slot_after(slot, first), second),
    decreases second.len(),
{
    if second.len() == 0 {
        assert(first + second =~= first);
    } else {
        assert((first + second).drop_last() =~= first + second.drop_last());
        lemma_slot_after_append(slot, first, second.drop_last());
    }
}

/// A failed load leaves the worker empty and fails the call as a load failure;
/// the next call on that worker is told to load again.
pub proof fn lemma_failed_load_retried<M, V>(reason: String)
    ensures
        next_slot(None::<M>, Event::<M, V>::Loaded(Err(reason))) == None::<M>,
        action_for(None::<M>, Event::<M, V>::Loaded(Err(reason))) == Action::<V>::Reject(
            VectorizeError::ModelLoad(reason),
        ),
        action_for(
            next_slot(None::<M>, Event::<M, V>::Loaded(Err(reason))),
            Event::<M, V>::Begin,
        ) == Action::<V>::Load,
{
}

/// Every embedding a call resolves with has exactly `EMBEDDING_DIM` components.
pub proof fn lemma_resolved_full_dimension<M, V>(slot: Option<M>, event: Event<M, V>)
    ensures
        action_for(slot, event) matches Action::Resolve(v) ==> v.len() == EMBEDDING_DIM,
{
}

/// How a call ends depends on its own inference outcome alone: not on which
/// calls ran before on this worker or any other, nor on what they left cached.
/// An inference outcome, failed or not, leaves the cache as it was.
pub proof fn lemma_no_leak_between_calls<M, V>(
    slot1: Option<M>,
    history1: Seq<Event<M, V>>,
    slot2: Option<M>,
    history2: Seq<Event<M, V>>,
    outcome: Result<Vec<V>, String>,
)
    ensures
        action_for(slot_after(slot1, history1), Event::<M, V>::Encoded(outcome)) == action_for(
            slot_after(slot2, history2),
            Event::<M, V>::Encoded(outcome),
        ),
        next_slot(slot_after(slot1, history1), Event::<M, V>::Encoded(outcome)) == slot_after(
            slot1,
            history1,
        ),
{
}

} // verus!
