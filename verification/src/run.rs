//! A responder run over the events of a session, and what holds of every
//! such run.

use vstd::prelude::*;
use crate::action::{EventView, Reaction};
use crate::error::CallError;

verus! {

/// The state of a responder after some events, from the state `start`.
pub open spec fn run_state<S, V>(
    step: spec_fn(S, EventView) -> (S, Reaction<V>),
    start: S,
    events: Seq<EventView>,
) -> S
    decreases events.len(),
{
    if events.len() == 0 {
        start
    } else {
        step(run_state(step, start, events.drop_last()), events.last()).0
    }
}

/// The reactions of a responder to some events, one for each event.
pub open spec fn run_log<S, V>(
    step: spec_fn(S, EventView) -> (S, Reaction<V>),
    start: S,
    events: Seq<EventView>,
) -> Seq<Reaction<V>>
    decreases events.len(),
{
    if events.len() == 0 {
        Seq::empty()
    } else {
        run_log(step, start, events.drop_last()).push(
            step(run_state(step, start, events.drop_last()), events.last()).1,
        )
    }
}

/// What the caller receives: the outcome of the first reaction that has one.
pub open spec fn first_outcome<V>(log: Seq<Reaction<V>>) -> Option<Result<V, CallError>>
    decreases log.len(),
{
    if log.len() == 0 {
        None
    } else {
        match first_outcome(log.drop_last()) {
            Some(outcome) => Some(outcome),
            None => log.last().outcome(),
        }
    }
}

/// How many reactions hand an outcome to the caller.
pub open spec fn count_outcomes<V>(log: Seq<Reaction<V>>) -> nat
    decreases log.len(),
{
    if log.len() == 0 {
        0
    } else {
        count_outcomes(log.drop_last()) + if log.last().outcome() is Some {
            1nat
        } else {
            0nat
        }
    }
}

/// How many reactions close the session.
pub open spec fn count_closes<V>(log: Seq<Reaction<V>>) -> nat
    decreases log.len(),
{
    if log.len() == 0 {
        0
    } else {
        count_closes(log.drop_last()) + if log.last().closes() {
            1nat
        } else {
            0nat
        }
    }
}

/// How many reactions send a text.
pub open spec fn count_sends<V>(log: Seq<Reaction<V>>) -> nat
    decreases log.len(),
{
    if log.len() == 0 {
        0
    } else {
        count_sends(log.drop_last()) + if log.last().sends() {
            1nat
        } else {
            0nat
        }
    }
}

/// How many reactions give up a session that is gone.
pub open spec fn count_abandons<V>(log: Seq<Reaction<V>>) -> nat
    decreases log.len(),
{
    if log.len() == 0 {
        0
    } else {
        count_abandons(log.drop_last()) + if log.last() is Abandon {
            1nat
        } else {
            0nat
        }
    }
}

/// Whether `fresh` marks the states in which a responder has not sent its
/// request: only such a state sends, sending leaves them, and nothing
/// leads back into them.
pub open spec fn sends_once<S, V>(
    step: spec_fn(S, EventView) -> (S, Reaction<V>),
    fresh: spec_fn(S) -> bool,
) -> bool {
    forall|s: S, e: EventView|
        {
            &&& (#[trigger] step(s, e)).1.sends() ==> fresh(s) && !fresh(step(s, e).0)
            &&& !fresh(s) ==> !fresh(step(s, e).0)
        }
}

/// Whether `done` marks the states in which a responder has resolved: the
/// reactions with an outcome are those that lead into such a state, and in
/// such a state every event is passed over.
pub open spec fn resolves_once<S, V>(
    step: spec_fn(S, EventView) -> (S, Reaction<V>),
    done: spec_fn(S) -> bool,
) -> bool {
    forall|s: S, e: EventView|
        {
            &&& done(s) ==> #[trigger] step(s, e) == (s, Reaction::<V>::Nothing)
            &&& step(s, e).1.outcome() is Some <==> !done(s) && done(step(s, e).0)
        }
}

/// The run over one event is one step.
pub proof fn lemma_run_one<S, V>(
    step: spec_fn(S, EventView) -> (S, Reaction<V>),
    start: S,
    event: EventView,
)
    ensures
        run_state(step, start, seq![event]) == step(start, event).0,
        run_log(step, start, seq![event]) == seq![step(start, event).1],
{
    let events = seq![event];
    assert(events.drop_last() =~= Seq::<EventView>::empty());
    assert(run_state(step, start, events.drop_last()) == start);
    assert(run_log(step, start, events.drop_last()) =~= Seq::<Reaction<V>>::empty());
    assert(run_log(step, start, events) =~= seq![step(start, event).1]);
}

/// A run over `head + tail` is the run over `tail` from where the run over
/// `head` ended.
pub proof fn lemma_run_concat<S, V>(
    step: spec_fn(S, EventView) -> (S, Reaction<V>),
    start: S,
    head: Seq<EventView>,
    tail: Seq<EventView>,
)
    ensures
        run_state(step, start, head + tail) == run_state(step, run_state(step, start, head), tail),
        run_log(step, start, head + tail) == run_log(step, start, head) + run_log(
            step,
            run_state(step, start, head),
            tail,
        ),
    decreases tail.len(),
{
    if tail.len() == 0 {
        assert(head + tail =~= head);
        assert(run_log(step, start, head) + Seq::<Reaction<V>>::empty() =~= run_log(
            step,
            start,
            head,
        ));
    } else {
        lemma_run_concat(step, start, head, tail.drop_last());
        assert((head + tail).drop_last() =~= head + tail.drop_last());
        assert((head + tail).last() == tail.last());
        let middle = run_state(step, start, head);
        assert(run_log(step, start, head + tail) =~= run_log(step, start, head) + run_log(
            step,
            middle,
            tail,
        ));
    }
}

/// What the caller receives from a single reaction.
pub proof fn lemma_first_outcome_one<V>(reaction: Reaction<V>)
    ensures
        first_outcome(seq![reaction]) == reaction.outcome(),
{
    let log = seq![reaction];
    assert(log.drop_last() =~= Seq::<Reaction<V>>::empty());
    assert(first_outcome(log.drop_last()) is None);
}

/// Once a log holds an outcome, reactions after it change nothing of what
/// the caller receives.
pub proof fn lemma_first_outcome_stays<V>(head: Seq<Reaction<V>>, tail: Seq<Reaction<V>>)
    requires
        first_outcome(head) is Some,
    ensures
        first_outcome(head + tail) == first_outcome(head),
    decreases tail.len(),
{
    if tail.len() == 0 {
        assert(head + tail =~= head);
    } else {
        lemma_first_outcome_stays(head, tail.drop_last());
        assert((head + tail).drop_last() =~= head + tail.drop_last());
    }
}

/// Where a log holds no outcome, the caller receives what the reactions
/// after it hold.
pub proof fn lemma_first_outcome_skips<V>(head: Seq<Reaction<V>>, tail: Seq<Reaction<V>>)
    requires
        first_outcome(head) is None,
    ensures
        first_outcome(head + tail) == first_outcome(tail),
    decreases tail.len(),
{
    if tail.len() == 0 {
        assert(head + tail =~= head);
    } else {
        lemma_first_outcome_skips(head, tail.drop_last());
        assert((head + tail).drop_last() =~= head + tail.drop_last());
    }
}

/// A responder that resolves once hands the caller at most one outcome in
/// any run. With each outcome it either closes the session or gives up a
/// session that is gone. From a state that has not resolved, it has
/// resolved after the run exactly if it has handed out an outcome.
pub proof fn lemma_at_most_one_outcome<S, V>(
    step: spec_fn(S, EventView) -> (S, Reaction<V>),
    done: spec_fn(S) -> bool,
    start: S,
    events: Seq<EventView>,
)
    requires
        resolves_once(step, done),
    ensures
        count_outcomes(run_log(step, start, events)) <= 1,
        count_closes(run_log(step, start, events)) + count_abandons(run_log(step, start, events))
            == count_outcomes(run_log(step, start, events)),
        done(start) ==> count_outcomes(run_log(step, start, events)) == 0 && run_state(
            step,
            start,
            events,
        ) == start,
        !done(start) ==> (count_outcomes(run_log(step, start, events)) == 1 <==> done(
            run_state(step, start, events),
        )),
        first_outcome(run_log(step, start, events)) is Some <==> count_outcomes(
            run_log(step, start, events),
        ) == 1,
    decreases events.len(),
{
    if events.len() > 0 {
        let before = events.drop_last();
        lemma_at_most_one_outcome(step, done, start, before);
        let s = run_state(step, start, before);
        let log = run_log(step, start, events);
        assert(log.drop_last() =~= run_log(step, start, before));
        assert(log.last() == step(s, events.last()).1);
    }
}

/// A responder that sends once sends at most one text in any run.
pub proof fn lemma_at_most_one_send<S, V>(
    step: spec_fn(S, EventView) -> (S, Reaction<V>),
    fresh: spec_fn(S) -> bool,
    start: S,
    events: Seq<EventView>,
)
    requires
        sends_once(step, fresh),
    ensures
        count_sends(run_log(step, start, events)) <= 1,
        fresh(run_state(step, start, events)) ==> count_sends(run_log(step, start, events)) == 0,
        !fresh(start) ==> count_sends(run_log(step, start, events)) == 0,
        !fresh(start) ==> !fresh(run_state(step, start, events)),
    decreases events.len(),
{
    if events.len() > 0 {
        let before = events.drop_last();
        lemma_at_most_one_send(step, fresh, start, before);
        let s = run_state(step, start, before);
        let log = run_log(step, start, events);
        assert(log.drop_last() =~= run_log(step, start, before));
        assert(log.last() == step(s, events.last()).1);
    }
}

/// An event on a stream that two calls share, with the call it belongs to.
pub struct Routed {
    /// Whether the event belongs to the first of the two calls.
    pub first: bool,
    pub event: EventView,
}

/// The events of one of the two calls, in the order of the stream.
pub open spec fn events_of(stream: Seq<Routed>, first: bool) -> Seq<EventView>
    decreases stream.len(),
{
    if stream.len() == 0 {
        Seq::empty()
    } else if stream.last().first == first {
        events_of(stream.drop_last(), first).push(stream.last().event)
    } else {
        events_of(stream.drop_last(), first)
    }
}

/// The states of two responders after a shared stream, each event handed
/// to the responder of its call.
pub open spec fn pair_state<A, B, VA, VB>(
    step_a: spec_fn(A, EventView) -> (A, Reaction<VA>),
    step_b: spec_fn(B, EventView) -> (B, Reaction<VB>),
    start: (A, B),
    stream: Seq<Routed>,
) -> (A, B)
    decreases stream.len(),
{
    if stream.len() == 0 {
        start
    } else {
        let before = pair_state(step_a, step_b, start, stream.drop_last());
        if stream.last().first {
            (step_a(before.0, stream.last().event).0, before.1)
        } else {
            (before.0, step_b(before.1, stream.last().event).0)
        }
    }
}

/// The reactions of two responders to a shared stream, each in a log of its
/// own.
pub open spec fn pair_log<A, B, VA, VB>(
    step_a: spec_fn(A, EventView) -> (A, Reaction<VA>),
    step_b: spec_fn(B, EventView) -> (B, Reaction<VB>),
    start: (A, B),
    stream: Seq<Routed>,
) -> (Seq<Reaction<VA>>, Seq<Reaction<VB>>)
    decreases stream.len(),
{
    if stream.len() == 0 {
        (Seq::empty(), Seq::empty())
    } else {
        let state = pair_state(step_a, step_b, start, stream.drop_last());
        let log = pair_log(step_a, step_b, start, stream.drop_last());
        if stream.last().first {
            (log.0.push(step_a(state.0, stream.last().event).1), log.1)
        } else {
            (log.0, log.1.push(step_b(state.1, stream.last().event).1))
        }
    }
}

/// Two responders on a shared stream do not see each other: each ends in
/// the state, and has reacted with the log, of a run over its own events
/// alone.
pub proof fn lemma_calls_are_isolated<A, B, VA, VB>(
    step_a: spec_fn(A, EventView) -> (A, Reaction<VA>),
    step_b: spec_fn(B, EventView) -> (B, Reaction<VB>),
    start: (A, B),
    stream: Seq<Routed>,
)
    ensures
        pair_state(step_a, step_b, start, stream).0 == run_state(
            step_a,
            start.0,
            events_of(stream, true),
        ),
        pair_state(step_a, step_b, start, stream).1 == run_state(
            step_b,
            start.1,
            events_of(stream, false),
        ),
        pair_log(step_a, step_b, start, stream).0 == run_log(
            step_a,
            start.0,
            events_of(stream, true),
        ),
        pair_log(step_a, step_b, start, stream).1 == run_log(
            step_b,
            start.1,
            events_of(stream, false),
        ),
    decreases stream.len(),
{
    if stream.len() > 0 {
        lemma_calls_are_isolated(step_a, step_b, start, stream.drop_last());
        let mine = events_of(stream, stream.last().first);
        assert(mine.drop_last() =~= events_of(stream.drop_last(), stream.last().first));
        assert(mine.last() == stream.last().event);
    }
}

} // verus!
