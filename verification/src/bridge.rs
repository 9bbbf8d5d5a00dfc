//! The synchronous bridge: one call, from the first event of its session to
//! the outcome that the caller receives.

use vstd::prelude::*;
use crate::action::{event_views, outcome_view, Event, EventView, Reaction};
use crate::error::CallError;
use crate::frame::{frame_in, reply_in, FrameView};
use crate::getter::{Getter, GetterView, Phase, EMPTY_RESULT};
use crate::hash::hash_of_hexstr;
use crate::json::json_read;
use crate::request::{
    genesis_request_view, storage_request_view, submit_request_view, REQUEST_ONE_SHOT,
};
use crate::run::{
    count_abandons, count_closes, count_outcomes, count_sends, events_of, first_outcome,
    lemma_at_most_one_outcome, lemma_at_most_one_send, lemma_calls_are_isolated,
    lemma_first_outcome_one, lemma_first_outcome_skips, lemma_first_outcome_stays,
    lemma_run_concat, lemma_run_one, pair_log, resolves_once, run_log, run_state, sends_once,
    Routed,
};
use crate::submitter::{
    finalized_text, is_submit_reply, keeps_waiting, reports_error, Stage, Submitter,
    SubmitterView, REQUEST_SUBMIT,
};
use crate::text::lemma_decimal_round_trip;

verus! {

/// How a one-shot responder steps.
pub open spec fn getter_step() -> spec_fn(GetterView, EventView) -> (
    GetterView,
    Reaction<Seq<char>>,
) {
    |s: GetterView, e: EventView| s.on_event(e)
}

/// How a subscription responder steps.
pub open spec fn submitter_step() -> spec_fn(SubmitterView, EventView) -> (
    SubmitterView,
    Reaction<Seq<u8>>,
) {
    |s: SubmitterView, e: EventView| s.on_event(e)
}

/// The one-shot responder of a new call.
pub open spec fn new_getter(request: Seq<char>) -> GetterView {
    GetterView { request, phase: Phase::Created }
}

/// The subscription responder of a new call.
pub open spec fn new_submitter(request: Seq<char>) -> SubmitterView {
    SubmitterView { request, stage: Stage::Created }
}

/// What the caller of a one-shot call receives when its session reports
/// `events`: `None` while the call has not resolved.
pub open spec fn response_to(request: Seq<char>, events: Seq<EventView>) -> Option<
    Result<Seq<char>, CallError>,
> {
    first_outcome(run_log(getter_step(), new_getter(request), events))
}

/// What the caller of a submission receives when its session reports
/// `events`: `None` while the call has not resolved.
pub open spec fn submission_of(request: Seq<char>, events: Seq<EventView>) -> Option<
    Result<Seq<u8>, CallError>,
> {
    first_outcome(run_log(submitter_step(), new_submitter(request), events))
}

/// Runs a one-shot call over the events of its session, and returns what
/// the caller receives: the outcome of the first event that resolves the
/// call, or `None` where no event does.
pub fn get_response(req: String, events: &[Event]) -> (r: Option<Result<String, CallError>>)
    ensures
        outcome_view(r) == response_to(req@, event_views(events@)),
{
    let ghost start = new_getter(req@);
    let ghost views = event_views(events@);
    let mut getter = Getter::new(req);
    let mut i: usize = 0;
    while i < events.len()
        invariant
            i <= events.len(),
            start == new_getter(req@),
            views == event_views(events@),
            getter@ == run_state(getter_step(), start, views.take(i as int)),
            first_outcome(run_log(getter_step(), start, views.take(i as int))) is None,
        decreases events.len() - i,
    {
        let action = getter.on_event(&events[i]);
        proof {
            let log = run_log(getter_step(), start, views.take(i + 1));
            assert(views.take(i + 1).drop_last() =~= views.take(i as int));
            assert(views.take(i + 1).last() == events@[i as int]@);
            assert(log.drop_last() =~= run_log(getter_step(), start, views.take(i as int)));
            assert(log.last() == action@);
        }
        match action.into_outcome() {
            Some(outcome) => {
                proof {
                    assert(views =~= views.take(i + 1) + views.skip(i + 1));
                    lemma_run_concat(getter_step(), start, views.take(i + 1), views.skip(i + 1));
                    lemma_first_outcome_stays(
                        run_log(getter_step(), start, views.take(i + 1)),
                        run_log(
                            getter_step(),
                            run_state(getter_step(), start, views.take(i + 1)),
                            views.skip(i + 1),
                        ),
                    );
                }
                return Some(outcome);
            },
            None => {},
        }
        i += 1;
    }
    proof {
        assert(views.take(events.len() as int) =~= views);
    }
    None
}

/// Runs a submission over the events of its session, and returns what the
/// caller receives: the outcome of the first event that resolves the call,
/// or `None` where no event does.
pub fn submit(req: String, events: &[Event]) -> (r: Option<Result<crate::hash::Hash, CallError>>)
    ensures
        outcome_view(r) == submission_of(req@, event_views(events@)),
{
    let ghost start = new_submitter(req@);
    let ghost views = event_views(events@);
    let mut submitter = Submitter::new(req);
    let mut i: usize = 0;
    while i < events.len()
        invariant
            i <= events.len(),
            start == new_submitter(req@),
            views == event_views(events@),
            submitter@ == run_state(submitter_step(), start, views.take(i as int)),
            first_outcome(run_log(submitter_step(), start, views.take(i as int))) is None,
        decreases events.len() - i,
    {
        let action = submitter.on_event(&events[i]);
        proof {
            let log = run_log(submitter_step(), start, views.take(i + 1));
            assert(views.take(i + 1).drop_last() =~= views.take(i as int));
            assert(views.take(i + 1).last() == events@[i as int]@);
            assert(log.drop_last() =~= run_log(submitter_step(), start, views.take(i as int)));
            assert(log.last() == action@);
        }
        match action.into_outcome() {
            Some(outcome) => {
                proof {
                    assert(views =~= views.take(i + 1) + views.skip(i + 1));
                    lemma_run_concat(submitter_step(), start, views.take(i + 1), views.skip(i + 1));
                    lemma_first_outcome_stays(
                        run_log(submitter_step(), start, views.take(i + 1)),
                        run_log(
                            submitter_step(),
                            run_state(submitter_step(), start, views.take(i + 1)),
                            views.skip(i + 1),
                        ),
                    );
                }
                return Some(outcome);
            },
            None => {},
        }
        i += 1;
    }
    proof {
        assert(views.take(events.len() as int) =~= views);
    }
    None
}

/// What a call returns once its session is over: the outcome that was
/// handed over, or a connection error where none was.
pub open spec fn concluded<V>(handed: Option<Result<V, CallError>>) -> Result<V, CallError> {
    match handed {
        Some(outcome) => outcome,
        None => Err(CallError::Connection),
    }
}

/// What a call returns once its session is over: the outcome that was
/// handed over, or a connection error where none was.
pub fn conclude<T>(handed: Option<Result<T, CallError>>) -> (r: Result<T, CallError>)
    ensures
        r == concluded(handed),
{
    match handed {
        Some(outcome) => outcome,
        None => Err(CallError::Connection),
    }
}

/// The states in which a one-shot call has resolved.
pub open spec fn getter_done() -> spec_fn(GetterView) -> bool {
    |s: GetterView| s.phase is Done
}

/// The states in which a one-shot call has not sent its request.
pub open spec fn getter_fresh() -> spec_fn(GetterView) -> bool {
    |s: GetterView| s.phase is Created
}

/// The states in which a submission has resolved.
pub open spec fn submitter_done() -> spec_fn(SubmitterView) -> bool {
    |s: SubmitterView| s.stage is Done
}

/// The states in which a submission has not sent its request.
pub open spec fn submitter_fresh() -> spec_fn(SubmitterView) -> bool {
    |s: SubmitterView| s.stage is Created
}

proof fn lemma_getter_steps()
    ensures
        resolves_once(getter_step(), getter_done()),
        sends_once(getter_step(), getter_fresh()),
{
}

proof fn lemma_submitter_steps()
    ensures
        resolves_once(submitter_step(), submitter_done()),
        sends_once(submitter_step(), submitter_fresh()),
{
}

/// In any run of a one-shot call, whatever its session reports: the
/// request is sent at most once; the caller receives at most one outcome;
/// with that outcome, and only then, the session ends, and it ends once:
/// the responder closes it, or gives up a session that is gone. The caller
/// has received an outcome exactly if the responder has resolved.
pub proof fn lemma_one_shot_session_ends_once(request: Seq<char>, events: Seq<EventView>)
    ensures
        ({
            let log = run_log(getter_step(), new_getter(request), events);
            let end = run_state(getter_step(), new_getter(request), events);
            &&& count_sends(log) <= 1
            &&& count_outcomes(log) <= 1
            &&& count_closes(log) + count_abandons(log) == count_outcomes(log)
            &&& response_to(request, events) is Some <==> count_outcomes(log) == 1
            &&& response_to(request, events) is Some <==> end.phase is Done
        }),
{
    lemma_getter_steps();
    lemma_at_most_one_outcome(getter_step(), getter_done(), new_getter(request), events);
    lemma_at_most_one_send(getter_step(), getter_fresh(), new_getter(request), events);
}

/// In any run of a submission, whatever its session reports: the request
/// is sent at most once; the caller receives at most one outcome; with that
/// outcome, and only then, the session ends, and it ends once: the
/// responder closes it, or gives up a session that is gone. The caller has
/// received an outcome exactly if the responder has resolved.
pub proof fn lemma_submission_session_ends_once(request: Seq<char>, events: Seq<EventView>)
    ensures
        ({
            let log = run_log(submitter_step(), new_submitter(request), events);
            let end = run_state(submitter_step(), new_submitter(request), events);
            &&& count_sends(log) <= 1
            &&& count_outcomes(log) <= 1
            &&& count_closes(log) + count_abandons(log) == count_outcomes(log)
            &&& submission_of(request, events) is Some <==> count_outcomes(log) == 1
            &&& submission_of(request, events) is Some <==> end.stage is Done
        }),
{
    lemma_submitter_steps();
    lemma_at_most_one_outcome(submitter_step(), submitter_done(), new_submitter(request), events);
    lemma_at_most_one_send(submitter_step(), submitter_fresh(), new_submitter(request), events);
}

proof fn lemma_first_reply(request: Seq<char>, reply: Seq<char>, rest: Seq<EventView>)
    ensures
        response_to(request, seq![EventView::Open, EventView::Message(reply)] + rest)
            == new_getter(request).at(Phase::AwaitReply).on_message(reply).1.outcome(),
{
    let step = getter_step();
    let start = new_getter(request);
    let open = seq![EventView::Open];
    let message = seq![EventView::Message(reply)];
    lemma_run_one(step, start, EventView::Open);
    let waiting = start.at(Phase::AwaitReply);
    lemma_run_one(step, waiting, EventView::Message(reply));
    lemma_run_concat(step, start, open, message);
    assert(open + message =~= seq![EventView::Open, EventView::Message(reply)]);
    let head = open + message;
    lemma_run_concat(step, start, head, rest);
    let log = run_log(step, start, head);
    assert(log.drop_last() =~= seq![Reaction::<Seq<char>>::Send(request)]);
    lemma_first_outcome_one(Reaction::<Seq<char>>::Send(request));
    lemma_first_outcome_stays(log, run_log(step, run_state(step, start, head), rest));
}

/// A one-shot call whose reply holds a string `result` returns that
/// string, whatever the session reports after the reply.
pub proof fn lemma_reply_result_is_returned(
    request: Seq<char>,
    reply: Seq<char>,
    result: Seq<char>,
    rest: Seq<EventView>,
)
    requires
        json_read(reply) matches Some(doc) && reply_in(doc).result == Some(result),
    ensures
        response_to(request, seq![EventView::Open, EventView::Message(reply)] + rest) == Some(
            Ok::<Seq<char>, CallError>(result),
        ),
{
    lemma_first_reply(request, reply, rest);
}

/// A one-shot call whose reply holds no string `result` returns `0x00`,
/// whatever the session reports after the reply.
pub proof fn lemma_reply_without_result_gives_sentinel(
    request: Seq<char>,
    reply: Seq<char>,
    rest: Seq<EventView>,
)
    requires
        json_read(reply) matches Some(doc) && reply_in(doc).result is None,
    ensures
        response_to(request, seq![EventView::Open, EventView::Message(reply)] + rest) == Some(
            Ok::<Seq<char>, CallError>(EMPTY_RESULT@),
        ),
{
    lemma_first_reply(request, reply, rest);
}

/// Whether an event is a message that leaves a submission waiting.
pub open spec fn is_intermediate(event: EventView) -> bool {
    event matches EventView::Message(text) && json_read(text) matches Some(doc) && keeps_waiting(
        frame_in(doc),
    )
}

/// Whether an event is a notification of the finalized block `hash`.
pub open spec fn names_finalized(event: EventView, hash: Seq<u8>) -> bool {
    event matches EventView::Message(text) && json_read(text) matches Some(doc) && finalized_text(
        frame_in(doc),
    ) matches Some(hex) && hash_of_hexstr(hex) == Some(hash)
}

proof fn lemma_waiting_goes_on(start: SubmitterView, updates: Seq<EventView>)
    requires
        start.awaiting(),
        forall|i: int| 0 <= i < updates.len() ==> is_intermediate(#[trigger] updates[i]),
    ensures
        run_state(submitter_step(), start, updates).awaiting(),
        run_state(submitter_step(), start, updates).request == start.request,
        first_outcome(run_log(submitter_step(), start, updates)) is None,
    decreases updates.len(),
{
    if updates.len() > 0 {
        let before = updates.drop_last();
        assert forall|i: int| 0 <= i < before.len() implies is_intermediate(
            #[trigger] before[i],
        ) by {
            assert(before[i] == updates[i]);
        }
        lemma_waiting_goes_on(start, before);
        assert(is_intermediate(updates[updates.len() - 1]));
        let log = run_log(submitter_step(), start, updates);
        assert(log.drop_last() =~= run_log(submitter_step(), start, before));
    }
}

/// Acknowledgements and notifications of a plain status never resolve a
/// submission: after any number of them the call still waits, and the
/// caller has received nothing.
pub proof fn lemma_statuses_never_resolve(request: Seq<char>, updates: Seq<EventView>)
    requires
        forall|i: int| 0 <= i < updates.len() ==> is_intermediate(#[trigger] updates[i]),
    ensures
        submission_of(request, seq![EventView::Open] + updates) is None,
        run_state(
            submitter_step(),
            new_submitter(request),
            seq![EventView::Open] + updates,
        ).awaiting(),
{
    let step = submitter_step();
    let start = new_submitter(request);
    lemma_run_one(step, start, EventView::Open);
    let waiting = start.at(Stage::AwaitAck);
    lemma_waiting_goes_on(waiting, updates);
    lemma_run_concat(step, start, seq![EventView::Open], updates);
    let head = run_log(step, start, seq![EventView::Open]);
    lemma_first_outcome_one(Reaction::<Seq<u8>>::Send(request));
    lemma_first_outcome_skips(head, run_log(step, waiting, updates));
}

proof fn lemma_after_waiting(
    request: Seq<char>,
    updates: Seq<EventView>,
    last: EventView,
    rest: Seq<EventView>,
)
    requires
        forall|i: int| 0 <= i < updates.len() ==> is_intermediate(#[trigger] updates[i]),
        run_state(
            submitter_step(),
            new_submitter(request),
            seq![EventView::Open] + updates,
        ).on_event(last).1.outcome() is Some,
    ensures
        submission_of(request, seq![EventView::Open] + updates + seq![last] + rest) == run_state(
            submitter_step(),
            new_submitter(request),
            seq![EventView::Open] + updates,
        ).on_event(last).1.outcome(),
{
    let step = submitter_step();
    let start = new_submitter(request);
    let head = seq![EventView::Open] + updates;
    lemma_statuses_never_resolve(request, updates);
    let waiting = run_state(step, start, head);
    lemma_run_one(step, waiting, last);
    lemma_run_concat(step, start, head, seq![last]);
    let log = run_log(step, start, head + seq![last]);
    assert(log.drop_last() =~= run_log(step, start, head));
    lemma_run_concat(step, start, head + seq![last], rest);
    lemma_first_outcome_stays(log, run_log(step, run_state(step, start, head + seq![last]), rest));
}

/// A notification of a finalized block resolves a submission that waits,
/// with exactly the hash that the notification names, whatever the session
/// reports after it.
pub proof fn lemma_finalized_resolves(
    request: Seq<char>,
    updates: Seq<EventView>,
    last: EventView,
    hash: Seq<u8>,
    rest: Seq<EventView>,
)
    requires
        forall|i: int| 0 <= i < updates.len() ==> is_intermediate(#[trigger] updates[i]),
        names_finalized(last, hash),
    ensures
        submission_of(request, seq![EventView::Open] + updates + seq![last] + rest) == Some(
            Ok::<Seq<u8>, CallError>(hash),
        ),
{
    lemma_statuses_never_resolve(request, updates);
    lemma_after_waiting(request, updates, last, rest);
}

/// Whether an event is a message in which the node reports an error on the
/// submission.
pub open spec fn is_rejection(event: EventView) -> bool {
    event matches EventView::Message(text) && json_read(text) matches Some(doc) && reports_error(
        frame_in(doc),
    )
}

/// An error that the node reports fails a submission that waits, whatever
/// the session reports after it: the caller is not left waiting.
pub proof fn lemma_rejection_fails(
    request: Seq<char>,
    updates: Seq<EventView>,
    last: EventView,
    rest: Seq<EventView>,
)
    requires
        forall|i: int| 0 <= i < updates.len() ==> is_intermediate(#[trigger] updates[i]),
        is_rejection(last),
    ensures
        submission_of(request, seq![EventView::Open] + updates + seq![last] + rest) == Some(
            Err::<Seq<u8>, CallError>(CallError::Node),
        ),
{
    lemma_statuses_never_resolve(request, updates);
    lemma_after_waiting(request, updates, last, rest);
}

/// No call waits beyond its deadline or beyond its session: once the
/// session has reported that the deadline passed, or that it is gone, the
/// caller has received an outcome, whatever was reported before.
pub proof fn lemma_every_call_ends(request: Seq<char>, events: Seq<EventView>, last: EventView)
    requires
        last is Expired || last is Lost,
    ensures
        response_to(request, events.push(last)) is Some,
        submission_of(request, events.push(last)) is Some,
{
    let all = events.push(last);
    assert(all.drop_last() =~= events);
    lemma_one_shot_session_ends_once(request, all);
    lemma_submission_session_ends_once(request, all);
}

/// Only a notification of a finalized block resolves a submission with a
/// hash: where the caller receives one, the session has reported a
/// notification that names it.
pub proof fn lemma_only_finalized_resolves(
    request: Seq<char>,
    events: Seq<EventView>,
    hash: Seq<u8>,
)
    requires
        submission_of(request, events) == Some(Ok::<Seq<u8>, CallError>(hash)),
    ensures
        exists|i: int| 0 <= i < events.len() && names_finalized(#[trigger] events[i], hash),
    decreases events.len(),
{
    let step = submitter_step();
    let start = new_submitter(request);
    if events.len() > 0 {
        let before = events.drop_last();
        let log = run_log(step, start, events);
        assert(log.drop_last() =~= run_log(step, start, before));
        if first_outcome(run_log(step, start, before)) is Some {
            lemma_only_finalized_resolves(request, before, hash);
            let i = choose|i: int|
                0 <= i < before.len() && names_finalized(#[trigger] before[i], hash);
            assert(events[i] == before[i]);
        } else {
            let state = run_state(step, start, before);
            assert(log.last() == state.on_event(events.last()).1);
            assert(names_finalized(events[events.len() - 1], hash));
        }
    }
}

/// The reply that carries the identifier of a submission is recognised as
/// the reply to it, and the reply to a one-shot request is not.
pub proof fn lemma_submission_reply_is_recognised(
    extrinsic: Seq<char>,
    key_hash: Seq<char>,
    frame: FrameView,
)
    ensures
        frame.id == Some(submit_request_view(extrinsic).id) ==> is_submit_reply(frame),
        frame.id == Some(storage_request_view(key_hash).id) ==> !is_submit_reply(frame),
        frame.id == Some(genesis_request_view().id) ==> !is_submit_reply(frame),
{
    lemma_decimal_round_trip(REQUEST_SUBMIT);
    lemma_decimal_round_trip(REQUEST_ONE_SHOT);
}

/// A one-shot call and a submission whose events arrive on one stream do
/// not see each other: each caller receives what it would receive if the
/// stream held the events of its call alone.
pub proof fn lemma_concurrent_calls_are_isolated(
    query: Seq<char>,
    submission: Seq<char>,
    stream: Seq<Routed>,
)
    ensures
        ({
            let log = pair_log(
                getter_step(),
                submitter_step(),
                (new_getter(query), new_submitter(submission)),
                stream,
            );
            &&& first_outcome(log.0) == response_to(query, events_of(stream, true))
            &&& first_outcome(log.1) == submission_of(submission, events_of(stream, false))
        }),
{
    lemma_calls_are_isolated(
        getter_step(),
        submitter_step(),
        (new_getter(query), new_submitter(submission)),
        stream,
    );
}

/// Two one-shot calls whose events arrive on one stream do not see each
/// other: each caller receives what it would receive if the stream held the
/// events of its call alone.
pub proof fn lemma_concurrent_queries_are_isolated(
    first: Seq<char>,
    second: Seq<char>,
    stream: Seq<Routed>,
)
    ensures
        ({
            let log = pair_log(
                getter_step(),
                getter_step(),
                (new_getter(first), new_getter(second)),
                stream,
            );
            &&& first_outcome(log.0) == response_to(first, events_of(stream, true))
            &&& first_outcome(log.1) == response_to(second, events_of(stream, false))
        }),
{
    lemma_calls_are_isolated(
        getter_step(),
        getter_step(),
        (new_getter(first), new_getter(second)),
        stream,
    );
}

/// Two submissions whose events arrive on one stream do not see each
/// other: each caller receives what it would receive if the stream held the
/// events of its call alone.
pub proof fn lemma_concurrent_submissions_are_isolated(
    first: Seq<char>,
    second: Seq<char>,
    stream: Seq<Routed>,
)
    ensures
        ({
            let log = pair_log(
                submitter_step(),
                submitter_step(),
                (new_submitter(first), new_submitter(second)),
                stream,
            );
            &&& first_outcome(log.0) == submission_of(first, events_of(stream, true))
            &&& first_outcome(log.1) == submission_of(second, events_of(stream, false))
        }),
{
    lemma_calls_are_isolated(
        submitter_step(),
        submitter_step(),
        (new_submitter(first), new_submitter(second)),
        stream,
    );
}

} // verus!
