//! What each message adds to a trace: which spans it closes, in which order, what
//! it opens or writes, and inside which span.

use crate::protocol::{ChildEvent, EventKind, ParentRequest};
use crate::record::{OpView, RecordView, Shape, Slot};
use crate::span_records::{
    bare_view, call_result_view, complete_view, dump_result_view, error_view, fatal_error_view,
    feed_view, function_call_view, future_results_view, install_view, load_view,
    name_lookup_result_view, name_lookup_view, os_call_view, print_view, resolve_futures_view,
    restored_view, session_view, shutdown_view, typing_error_view,
};
use crate::telemetry::{
    after_event, after_request, event_trace, innermost, request_trace, RecorderView, Spans,
};
use vstd::prelude::*;

verus! {

/// Closing a span, if it is open.
pub open spec fn closing(open: bool, slot: Slot) -> Seq<OpView> {
    if open {
        seq![OpView::Close { slot }]
    } else {
        Seq::empty()
    }
}

/// Writing a record under `parent`.
pub open spec fn writing(parent: Option<Slot>, record: RecordView) -> Seq<OpView> {
    seq![OpView::Log { parent, record }]
}

/// Opening a span under `parent`.
pub open spec fn opening(slot: Slot, parent: Option<Slot>, record: RecordView) -> Seq<OpView> {
    seq![OpView::Open { slot, parent, record }]
}

/// The span of the sandbox that is innermost: the suspension, the feed it blocks,
/// or the session; a housekeeping turn is left out.
pub open spec fn sandbox_span(spans: Spans) -> Option<Slot> {
    if spans.pending {
        Some(Slot::Pending)
    } else if spans.feed {
        Some(Slot::Feed)
    } else if spans.session {
        Some(Slot::Session)
    } else {
        None
    }
}

/// A housekeeping turn is inside whatever the sandbox is doing, a suspension
/// inside its feed, and a feed inside its session.
pub proof fn law_spans_nest(spans: Spans)
    ensures
        spans.turn ==> innermost(spans) == Some(Slot::Turn),
        !spans.turn ==> innermost(spans) == sandbox_span(spans),
        innermost(spans) is None <==> !spans.turn && !spans.pending && !spans.feed
            && !spans.session,
{
}

/// Configuring closes what a session before left open, innermost first, and opens
/// a session at the root.
pub proof fn law_configure_opens_a_session(state: RecorderView, request: ParentRequest)
    requires
        request is Configure,
    ensures
        ({
            let trace = request_trace(state, Some(request));
            &&& trace.ops == closing(state.spans.turn, Slot::Turn) + closing(
                state.spans.pending,
                Slot::Pending,
            ) + closing(state.spans.feed, Slot::Feed) + opening(
                Slot::Session,
                None,
                session_view(request->Configure_0, state.worker_pid),
            )
            &&& trace.spans == Spans { turn: false, pending: false, feed: false, session: true }
        }),
{
    let trace = request_trace(state, Some(request));
    assert(trace.ops =~= closing(state.spans.turn, Slot::Turn) + closing(
        state.spans.pending,
        Slot::Pending,
    ) + closing(state.spans.feed, Slot::Feed) + opening(
        Slot::Session,
        None,
        session_view(request->Configure_0, state.worker_pid),
    ));
}

/// The record of a housekeeping request.
pub open spec fn turn_record(request: ParentRequest) -> Option<RecordView> {
    match request {
        ParentRequest::Load { state } => Some(load_view(state@.len())),
        ParentRequest::InstallDependencies { requirements } => Some(install_view(requirements@)),
        ParentRequest::Dump => Some(bare_view(Shape::Dump)),
        _ => None,
    }
}

/// Loading, installing and dumping open a turn inside whatever the sandbox is
/// doing, which stays open; a turn that never ended is closed first.
pub proof fn law_housekeeping_opens_a_turn(state: RecorderView, request: ParentRequest)
    requires
        turn_record(request) is Some,
    ensures
        ({
            let trace = request_trace(state, Some(request));
            &&& trace.ops == closing(state.spans.turn, Slot::Turn) + opening(
                Slot::Turn,
                sandbox_span(state.spans),
                turn_record(request)->0,
            )
            &&& trace.spans == Spans { turn: true, ..state.spans }
        }),
{
    assert(request_trace(state, Some(request)).ops =~= closing(state.spans.turn, Slot::Turn)
        + opening(Slot::Turn, sandbox_span(state.spans), turn_record(request)->0));
}

/// A feed closes the one before it, with what that was blocked on, and opens
/// inside the session.
pub proof fn law_feed_opens_inside_the_session(state: RecorderView, request: ParentRequest)
    requires
        request is Feed,
    ensures
        ({
            let trace = request_trace(state, Some(request));
            &&& trace.ops == closing(state.spans.turn, Slot::Turn) + closing(
                state.spans.pending,
                Slot::Pending,
            ) + closing(state.spans.feed, Slot::Feed) + opening(
                Slot::Feed,
                if state.spans.session {
                    Some(Slot::Session)
                } else {
                    None
                },
                feed_view(request->Feed_0),
            )
            &&& trace.spans == Spans { turn: false, pending: false, feed: true, ..state.spans }
        }),
{
    assert(request_trace(state, Some(request)).ops =~= closing(state.spans.turn, Slot::Turn)
        + closing(state.spans.pending, Slot::Pending) + closing(state.spans.feed, Slot::Feed)
        + opening(
        Slot::Feed,
        if state.spans.session {
            Some(Slot::Session)
        } else {
            None
        },
        feed_view(request->Feed_0),
    ));
}

/// The record of an answer.
pub open spec fn answer_record(request: ParentRequest) -> Option<RecordView> {
    match request {
        ParentRequest::ResumeCall { call_id, result } => Some(call_result_view(call_id, result)),
        ParentRequest::ResumeNameLookup { kind } => Some(name_lookup_result_view(kind)),
        ParentRequest::ResumeFutures { results } => Some(future_results_view(results@)),
        _ => None,
    }
}

/// An answer is written inside the suspension it answers, which then closes; an
/// answer to nothing is written at the root.
pub proof fn law_answer_closes_its_suspension(state: RecorderView, request: ParentRequest)
    requires
        answer_record(request) is Some,
    ensures
        ({
            let trace = request_trace(state, Some(request));
            &&& trace.ops == closing(state.spans.turn, Slot::Turn) + writing(
                if state.spans.pending {
                    Some(Slot::Pending)
                } else {
                    None
                },
                answer_record(request)->0,
            ) + closing(state.spans.pending, Slot::Pending)
            &&& trace.spans == Spans { turn: false, pending: false, ..state.spans }
        }),
{
    assert(request_trace(state, Some(request)).ops =~= closing(state.spans.turn, Slot::Turn)
        + writing(
        if state.spans.pending {
            Some(Slot::Pending)
        } else {
            None
        },
        answer_record(request)->0,
    ) + closing(state.spans.pending, Slot::Pending));
}

/// A reset and a shutdown close everything that is open, innermost first, and
/// write nothing. A message without a request closes a turn that never ended.
pub proof fn law_reset_closes_innermost_first(state: RecorderView, request: ParentRequest)
    requires
        request is Reset || request is Shutdown,
    ensures
        request_trace(state, Some(request)).ops == closing(state.spans.turn, Slot::Turn) + closing(
            state.spans.pending,
            Slot::Pending,
        ) + closing(state.spans.feed, Slot::Feed) + closing(state.spans.session, Slot::Session),
        request_trace(state, Some(request)).spans == (Spans {
            turn: false,
            pending: false,
            feed: false,
            session: false,
        }),
        request_trace(state, None).ops == closing(state.spans.turn, Slot::Turn),
        request_trace(state, None).spans == (Spans { turn: false, ..state.spans }),
{
    assert(request_trace(state, Some(request)).ops =~= closing(state.spans.turn, Slot::Turn)
        + closing(state.spans.pending, Slot::Pending) + closing(state.spans.feed, Slot::Feed)
        + closing(state.spans.session, Slot::Session));
    assert(request_trace(state, None).ops =~= closing(state.spans.turn, Slot::Turn));
}

/// The note that a session was restored, when an event brings one.
pub open spec fn restoring(spans: Spans, event: ChildEvent) -> Seq<OpView> {
    match event.restored_script_name {
        Some(script_name) => writing(innermost(spans), restored_view(script_name@)),
        None => Seq::empty(),
    }
}

/// The record of an event that blocks the sandbox.
pub open spec fn suspension_record(event: ChildEvent) -> Option<RecordView> {
    match event.kind {
        Some(EventKind::FunctionCall(call)) => Some(function_call_view(call, event)),
        Some(EventKind::OsCall(call)) => Some(os_call_view(call, event)),
        Some(EventKind::NameLookup { name }) => Some(name_lookup_view(name@, event)),
        Some(EventKind::ResolveFutures { pending_call_ids }) => Some(
            resolve_futures_view(pending_call_ids@, event),
        ),
        _ => None,
    }
}

/// An event that blocks the sandbox opens a suspension inside the innermost span,
/// and closes nothing.
pub proof fn law_suspension_opens_inside_the_run(state: RecorderView, event: ChildEvent)
    requires
        suspension_record(event) is Some,
    ensures
        event_trace(state, event).ops == restoring(state.spans, event) + opening(
            Slot::Pending,
            innermost(state.spans),
            suspension_record(event)->0,
        ),
        event_trace(state, event).spans == (Spans { pending: true, ..state.spans }),
{
    assert(event_trace(state, event).ops =~= restoring(state.spans, event) + opening(
        Slot::Pending,
        innermost(state.spans),
        suspension_record(event)->0,
    ));
}

/// The record of an event that ends a run.
pub open spec fn end_record(event: ChildEvent) -> Option<RecordView> {
    match event.kind {
        Some(EventKind::Complete { value }) => Some(complete_view(value, event)),
        Some(EventKind::Error { exception }) => Some(error_view(exception, event)),
        Some(EventKind::TypingError { diagnostics }) => Some(
            typing_error_view(diagnostics@, event),
        ),
        _ => None,
    }
}

/// An event that ends a run is written inside the innermost span before the run
/// closes, innermost first; the session stays. An error that answers a dump
/// closes the dump alone.
pub proof fn law_end_is_written_before_the_run_closes(state: RecorderView, event: ChildEvent)
    requires
        end_record(event) is Some,
    ensures
        ({
            let trace = event_trace(state, event);
            let written = restoring(state.spans, event) + writing(
                innermost(state.spans),
                end_record(event)->0,
            ) + closing(state.spans.turn, Slot::Turn);
            if state.dump_turn && event.kind->0 is Error {
                trace.ops == written && trace.spans == (Spans { turn: false, ..state.spans })
            } else {
                trace.ops == written + closing(state.spans.pending, Slot::Pending) + closing(
                    state.spans.feed,
                    Slot::Feed,
                ) && trace.spans == (Spans {
                    turn: false,
                    pending: false,
                    feed: false,
                    ..state.spans
                })
            }
        }),
{
    let trace = event_trace(state, event);
    let written = restoring(state.spans, event) + writing(
        innermost(state.spans),
        end_record(event)->0,
    ) + closing(state.spans.turn, Slot::Turn);
    if state.dump_turn && event.kind->0 is Error {
        assert(trace.ops =~= written);
    } else {
        assert(trace.ops =~= written + closing(state.spans.pending, Slot::Pending) + closing(
            state.spans.feed,
            Slot::Feed,
        ));
    }
}

/// The record of an event that is only written down.
pub open spec fn note_record(event: ChildEvent) -> Option<RecordView> {
    match event.kind {
        Some(EventKind::Print { text, stream }) => Some(print_view(text@, stream)),
        Some(EventKind::Shutdown { dump }) => Some(shutdown_view(dump, event)),
        Some(EventKind::FatalError { message }) => Some(fatal_error_view(message@)),
        None => Some(bare_view(Shape::NoKind)),
        _ => None,
    }
}

/// Output and failures of the worker are written inside the innermost span, and
/// close nothing. A finished dump is written inside its turn, which closes, and a
/// bare acknowledgement closes a turn and writes nothing.
pub proof fn law_notes_are_written_in_place(state: RecorderView, event: ChildEvent)
    ensures
        ({
            let trace = event_trace(state, event);
            let before = restoring(state.spans, event);
            &&& note_record(event) is Some ==> trace.ops == before + writing(
                innermost(state.spans),
                note_record(event)->0,
            ) && trace.spans == state.spans
            &&& event.kind matches Some(EventKind::DumpResult { state: dump }) ==> trace.ops
                == before + writing(innermost(state.spans), dump_result_view(dump@.len(), event))
                + closing(state.spans.turn, Slot::Turn) && trace.spans == (Spans {
                turn: false,
                ..state.spans
            })
            &&& event.kind matches Some(EventKind::Acknowledged) ==> trace.ops == before + closing(
                state.spans.turn,
                Slot::Turn,
            ) && trace.spans == (Spans { turn: false, ..state.spans })
        }),
{
    let trace = event_trace(state, event);
    let before = restoring(state.spans, event);
    if note_record(event) is Some {
        assert(trace.ops =~= before + writing(innermost(state.spans), note_record(event)->0));
    }
    match event.kind {
        Some(EventKind::DumpResult { state: dump }) => {
            assert(trace.ops =~= before + writing(
                innermost(state.spans),
                dump_result_view(dump@.len(), event),
            ) + closing(state.spans.turn, Slot::Turn));
        },
        Some(EventKind::Acknowledged) => {
            assert(trace.ops =~= before + closing(state.spans.turn, Slot::Turn));
        },
        _ => {},
    }
}

/// An enabled recorder keeps the spans that its trace left open, knows whether
/// the turn in flight is a dump, and stays the recorder of the same worker.
pub proof fn law_recorder_follows_its_trace(
    state: RecorderView,
    request: Option<ParentRequest>,
    event: ChildEvent,
)
    requires
        state.enabled,
    ensures
        ({
            let asked = after_request(state, request);
            let told = after_event(state, event);
            &&& asked.spans == request_trace(state, request).spans
            &&& asked.dump_turn <==> request is Some && request->0 is Dump
            &&& asked.enabled && asked.worker_pid == state.worker_pid
            &&& told.spans == event_trace(state, event).spans
            &&& told.dump_turn == state.dump_turn
            &&& told.enabled && told.worker_pid == state.worker_pid
        }),
{
}

} // verus!
