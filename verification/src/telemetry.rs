//! The trace of a pool's conversations with one worker.
//!
//! The trace mirrors the protocol: a `Configure` opens a session span that a
//! `Reset` closes, a `Feed` opens a span held across suspensions, and each
//! suspension is a span of its own that the answering `Resume*` closes, so its
//! duration is the host round-trip. A [`Recorder`] decides which spans open and
//! close and what is recorded inside them; the steps it returns are carried out
//! by whoever owns the exporter.

use crate::protocol::{ChildEvent, EventKind, ParentRequest};
use crate::record::{ops_view, push_op, OpView, Record, RecordView, Shape, Slot, TraceOp};
use crate::span_records::{
    bare_record, bare_view, call_result_record, call_result_view, complete_record, complete_view,
    dump_result_record, dump_result_view, error_record, error_view, fatal_error_record,
    fatal_error_view, feed_record, feed_view, function_call_record, function_call_view,
    future_results_record, future_results_view, install_record, install_view, load_record,
    load_view, name_lookup_record, name_lookup_result_record, name_lookup_result_view,
    name_lookup_view, os_call_record, os_call_view, print_record, print_view,
    resolve_futures_record, resolve_futures_view, restored_record, restored_view, session_record,
    session_view, shutdown_record, shutdown_view, typing_error_record, typing_error_view,
};
use vstd::prelude::*;

verus! {

/// Which slots of a trace hold an open span.
#[derive(Debug, Clone, Copy, PartialEq, Eq, Structural)]
pub struct Spans {
    pub turn: bool,
    pub pending: bool,
    pub feed: bool,
    pub session: bool,
}

/// Whether `slot` holds an open span.
pub open spec fn holds(spans: Spans, slot: Slot) -> bool {
    match slot {
        Slot::Turn => spans.turn,
        Slot::Pending => spans.pending,
        Slot::Feed => spans.feed,
        Slot::Session => spans.session,
    }
}

/// `spans` with `slot` set to hold a span or not.
pub open spec fn with_slot(spans: Spans, slot: Slot, open: bool) -> Spans {
    match slot {
        Slot::Turn => Spans { turn: open, ..spans },
        Slot::Pending => Spans { pending: open, ..spans },
        Slot::Feed => Spans { feed: open, ..spans },
        Slot::Session => Spans { session: open, ..spans },
    }
}

/// The innermost open span.
pub open spec fn innermost(spans: Spans) -> Option<Slot> {
    if spans.turn {
        Some(Slot::Turn)
    } else if spans.pending {
        Some(Slot::Pending)
    } else if spans.feed {
        Some(Slot::Feed)
    } else if spans.session {
        Some(Slot::Session)
    } else {
        None
    }
}

/// A trace in the making: the steps taken so far and the spans they leave open.
pub struct Progress {
    pub spans: Spans,
    pub ops: Seq<OpView>,
}

/// Closes `slot` if it holds a span.
pub open spec fn close(at: Progress, slot: Slot) -> Progress {
    if holds(at.spans, slot) {
        Progress {
            spans: with_slot(at.spans, slot, false),
            ops: at.ops.push(OpView::Close { slot }),
        }
    } else {
        at
    }
}

/// Opens a span in `slot` under `parent`.
pub open spec fn open_under(
    at: Progress,
    slot: Slot,
    parent: Option<Slot>,
    record: RecordView,
) -> Progress {
    Progress {
        spans: with_slot(at.spans, slot, true),
        ops: at.ops.push(OpView::Open { slot, parent, record }),
    }
}

/// Opens a span in `slot` inside the innermost open one.
pub open spec fn open(at: Progress, slot: Slot, record: RecordView) -> Progress {
    open_under(at, slot, innermost(at.spans), record)
}

/// Writes a record inside the innermost open span.
pub open spec fn log(at: Progress, record: RecordView) -> Progress {
    Progress {
        ops: at.ops.push(OpView::Log { parent: innermost(at.spans), record }),
        ..at
    }
}

/// Writes the answer to a suspension inside its span, then closes that span;
/// an answer to no suspension is written at the root.
pub open spec fn answer(at: Progress, record: RecordView) -> Progress {
    let parent = if at.spans.pending {
        Some(Slot::Pending)
    } else {
        None
    };
    close(
        Progress { ops: at.ops.push(OpView::Log { parent, record }), ..at },
        Slot::Pending,
    )
}

/// Closes the spans of a feed, innermost first.
pub open spec fn end_feed(at: Progress) -> Progress {
    close(close(close(at, Slot::Turn), Slot::Pending), Slot::Feed)
}

/// What a recorder knows between two messages.
pub struct RecorderView {
    pub enabled: bool,
    pub worker_pid: Option<u32>,
    pub spans: Spans,
    /// Whether the current turn is a dump.
    pub dump_turn: bool,
}

/// The trace of one request by an enabled recorder.
pub open spec fn request_trace(
    state: RecorderView,
    request: Option<ParentRequest>,
) -> Progress {
    // a turn whose ending event never arrived closes here
    let at = close(Progress { spans: state.spans, ops: Seq::empty() }, Slot::Turn);
    match request {
        Some(ParentRequest::Configure(configure)) => open_under(
            close(close(at, Slot::Pending), Slot::Feed),
            Slot::Session,
            None,
            session_view(configure, state.worker_pid),
        ),
        Some(ParentRequest::Load { state: dump }) => open(at, Slot::Turn, load_view(dump@.len())),
        Some(ParentRequest::Reset) => close(
            close(close(at, Slot::Pending), Slot::Feed),
            Slot::Session,
        ),
        Some(ParentRequest::InstallDependencies { requirements }) => open(
            at,
            Slot::Turn,
            install_view(requirements@),
        ),
        Some(ParentRequest::Feed(feed)) => open(
            close(close(at, Slot::Pending), Slot::Feed),
            Slot::Feed,
            feed_view(feed),
        ),
        Some(ParentRequest::ResumeCall { call_id, result }) => answer(
            at,
            call_result_view(call_id, result),
        ),
        Some(ParentRequest::ResumeNameLookup { kind }) => answer(at, name_lookup_result_view(kind)),
        Some(ParentRequest::ResumeFutures { results }) => answer(at, future_results_view(results@)),
        Some(ParentRequest::Dump) => open(at, Slot::Turn, bare_view(Shape::Dump)),
        Some(ParentRequest::Shutdown) => close(
            close(close(at, Slot::Pending), Slot::Feed),
            Slot::Session,
        ),
        None => at,
    }
}

/// The trace of one event by an enabled recorder.
pub open spec fn event_trace(state: RecorderView, event: ChildEvent) -> Progress {
    let start = Progress { spans: state.spans, ops: Seq::empty() };
    let at = match event.restored_script_name {
        Some(script_name) => log(start, restored_view(script_name@)),
        None => start,
    };
    match event.kind {
        Some(EventKind::Print { text, stream }) => log(at, print_view(text@, stream)),
        Some(EventKind::FunctionCall(call)) => open(
            at,
            Slot::Pending,
            function_call_view(call, event),
        ),
        Some(EventKind::OsCall(call)) => open(at, Slot::Pending, os_call_view(call, event)),
        Some(EventKind::NameLookup { name }) => open(
            at,
            Slot::Pending,
            name_lookup_view(name@, event),
        ),
        Some(EventKind::ResolveFutures { pending_call_ids }) => open(
            at,
            Slot::Pending,
            resolve_futures_view(pending_call_ids@, event),
        ),
        Some(EventKind::Complete { value }) => end_feed(log(at, complete_view(value, event))),
        Some(EventKind::Error { exception }) => {
            let logged = log(at, error_view(exception, event));
            // an error reply to a dump leaves the feed suspended and resumable
            if state.dump_turn {
                close(logged, Slot::Turn)
            } else {
                end_feed(logged)
            }
        },
        Some(EventKind::TypingError { diagnostics }) => end_feed(
            log(at, typing_error_view(diagnostics@, event)),
        ),
        Some(EventKind::DumpResult { state: dump }) => close(
            log(at, dump_result_view(dump@.len(), event)),
            Slot::Turn,
        ),
        Some(EventKind::Shutdown { dump }) => log(at, shutdown_view(dump, event)),
        Some(EventKind::Acknowledged) => close(at, Slot::Turn),
        Some(EventKind::FatalError { message }) => log(at, fatal_error_view(message@)),
        None => log(at, bare_view(Shape::NoKind)),
    }
}

/// The recorder after a request.
pub open spec fn after_request(
    state: RecorderView,
    request: Option<ParentRequest>,
) -> RecorderView {
    if state.enabled {
        RecorderView {
            spans: request_trace(state, request).spans,
            dump_turn: request matches Some(ParentRequest::Dump),
            ..state
        }
    } else {
        state
    }
}

/// The recorder after an event.
pub open spec fn after_event(state: RecorderView, event: ChildEvent) -> RecorderView {
    if state.enabled {
        RecorderView { spans: event_trace(state, event).spans, ..state }
    } else {
        state
    }
}

/// A trace in the making.
struct Writer {
    spans: Spans,
    ops: Vec<TraceOp>,
}

impl View for Writer {
    type V = Progress;

    closed spec fn view(&self) -> Progress {
        Progress { spans: self.spans, ops: ops_view(self.ops@) }
    }
}

impl Writer {
    fn new(spans: Spans) -> (writer: Writer)
        ensures
            writer@ == (Progress { spans, ops: Seq::empty() }),
    {
        let ops: Vec<TraceOp> = Vec::new();
        assert(ops_view(ops@) =~= Seq::<OpView>::empty());
        Writer { spans, ops }
    }

    fn set(&mut self, slot: Slot, open: bool)
        ensures
            final(self).spans == with_slot(old(self).spans, slot, open),
            final(self).ops == old(self).ops,
    {
        match slot {
            Slot::Turn => self.spans.turn = open,
            Slot::Pending => self.spans.pending = open,
            Slot::Feed => self.spans.feed = open,
            Slot::Session => self.spans.session = open,
        }
    }

    fn close(&mut self, slot: Slot)
        ensures
            final(self)@ == close(old(self)@, slot),
    {
        let open = match slot {
            Slot::Turn => self.spans.turn,
            Slot::Pending => self.spans.pending,
            Slot::Feed => self.spans.feed,
            Slot::Session => self.spans.session,
        };
        if open {
            self.set(slot, false);
            push_op(&mut self.ops, TraceOp::Close { slot });
        }
    }

    fn open_under(&mut self, slot: Slot, parent: Option<Slot>, record: Record)
        ensures
            final(self)@ == open_under(old(self)@, slot, parent, record@),
    {
        self.set(slot, true);
        push_op(&mut self.ops, TraceOp::Open { slot, parent, record });
    }

    fn open(&mut self, slot: Slot, record: Record)
        ensures
            final(self)@ == open(old(self)@, slot, record@),
    {
        let parent = context_span(self.spans);
        self.open_under(slot, parent, record);
    }

    fn log(&mut self, record: Record)
        ensures
            final(self)@ == log(old(self)@, record@),
    {
        let parent = context_span(self.spans);
        push_op(&mut self.ops, TraceOp::Log { parent, record });
    }

    fn answer(&mut self, record: Record)
        ensures
            final(self)@ == answer(old(self)@, record@),
    {
        let parent = if self.spans.pending {
            Some(Slot::Pending)
        } else {
            None
        };
        push_op(&mut self.ops, TraceOp::Log { parent, record });
        self.close(Slot::Pending);
    }

    fn end_feed(&mut self)
        ensures
            final(self)@ == end_feed(old(self)@),
    {
        self.close(Slot::Turn);
        self.close(Slot::Pending);
        self.close(Slot::Feed);
    }
}

/// The innermost open span, the parent of whatever comes next.
pub fn context_span(spans: Spans) -> (slot: Option<Slot>)
    ensures
        slot == innermost(spans),
{
    if spans.turn {
        Some(Slot::Turn)
    } else if spans.pending {
        Some(Slot::Pending)
    } else if spans.feed {
        Some(Slot::Feed)
    } else if spans.session {
        Some(Slot::Session)
    } else {
        None
    }
}

/// Records one worker's protocol turns.
///
/// A disabled recorder is a no-op, so a worker is written the same way with
/// and without telemetry.
#[derive(Debug, Clone, Copy)]
pub struct Recorder {
    enabled: bool,
    worker_pid: Option<u32>,
    spans: Spans,
    dump_turn: bool,
}

impl View for Recorder {
    type V = RecorderView;

    closed spec fn view(&self) -> RecorderView {
        RecorderView {
            enabled: self.enabled,
            worker_pid: self.worker_pid,
            spans: self.spans,
            dump_turn: self.dump_turn,
        }
    }
}

impl Recorder {
    /// A recorder for one worker with nothing open; a remote worker has no
    /// process id.
    pub fn new(enabled: bool, worker_pid: Option<u32>) -> (recorder: Recorder)
        ensures
            recorder@ == (RecorderView {
                enabled,
                worker_pid,
                spans: Spans { turn: false, pending: false, feed: false, session: false },
                dump_turn: false,
            }),
    {
        Recorder {
            enabled,
            worker_pid,
            spans: Spans { turn: false, pending: false, feed: false, session: false },
            dump_turn: false,
        }
    }

    /// Whether this recorder records anything; when it does not, values need
    /// no rendering.
    pub fn is_enabled(&self) -> (enabled: bool)
        ensures
            enabled == self@.enabled,
    {
        self.enabled
    }

    /// The spans currently open.
    pub fn spans(&self) -> (spans: Spans)
        ensures
            spans == self@.spans,
    {
        self.spans
    }

    /// Starts recording one turn; called once the request is on the wire.
    pub fn begin_turn(&mut self, request: &Option<ParentRequest>) -> (ops: Vec<TraceOp>)
        ensures
            final(self)@ == after_request(old(self)@, *request),
            ops_view(ops@) == (if old(self)@.enabled {
                request_trace(old(self)@, *request).ops
            } else {
                Seq::empty()
            }),
    {
        let mut writer = Writer::new(self.spans);
        if !self.enabled {
            return writer.ops;
        }
        writer.close(Slot::Turn);
        self.dump_turn = false;
        match request {
            Some(ParentRequest::Configure(configure)) => {
                writer.close(Slot::Pending);
                writer.close(Slot::Feed);
                writer.open_under(Slot::Session, None, session_record(configure, self.worker_pid));
            },
            Some(ParentRequest::Load { state }) => {
                writer.open(Slot::Turn, load_record(state));
            },
            Some(ParentRequest::Reset) => {
                writer.close(Slot::Pending);
                writer.close(Slot::Feed);
                writer.close(Slot::Session);
            },
            Some(ParentRequest::InstallDependencies { requirements }) => {
                writer.open(Slot::Turn, install_record(requirements));
            },
            Some(ParentRequest::Feed(feed)) => {
                writer.close(Slot::Pending);
                writer.close(Slot::Feed);
                writer.open(Slot::Feed, feed_record(feed));
            },
            Some(ParentRequest::ResumeCall { call_id, result }) => {
                writer.answer(call_result_record(*call_id, result));
            },
            Some(ParentRequest::ResumeNameLookup { kind }) => {
                writer.answer(name_lookup_result_record(kind));
            },
            Some(ParentRequest::ResumeFutures { results }) => {
                writer.answer(future_results_record(results));
            },
            Some(ParentRequest::Dump) => {
                self.dump_turn = true;
                writer.open(Slot::Turn, bare_record(Shape::Dump));
            },
            Some(ParentRequest::Shutdown) => {
                writer.close(Slot::Pending);
                writer.close(Slot::Feed);
                writer.close(Slot::Session);
            },
            None => {},
        }
        self.spans = writer.spans;
        writer.ops
    }

    /// Records one event from the worker: suspension events open the pending
    /// span, turn-ending events close the feed and turn spans.
    pub fn event(&mut self, event: &ChildEvent) -> (ops: Vec<TraceOp>)
        ensures
            final(self)@ == after_event(old(self)@, *event),
            ops_view(ops@) == (if old(self)@.enabled {
                event_trace(old(self)@, *event).ops
            } else {
                Seq::empty()
            }),
    {
        let mut writer = Writer::new(self.spans);
        if !self.enabled {
            return writer.ops;
        }
        if let Some(script_name) = &event.restored_script_name {
            writer.log(restored_record(script_name));
        }
        match &event.kind {
            Some(EventKind::Print { text, stream }) => {
                writer.log(print_record(text, *stream));
            },
            Some(EventKind::FunctionCall(call)) => {
                writer.open(Slot::Pending, function_call_record(call, event));
            },
            Some(EventKind::OsCall(call)) => {
                writer.open(Slot::Pending, os_call_record(call, event));
            },
            Some(EventKind::NameLookup { name }) => {
                writer.open(Slot::Pending, name_lookup_record(name, event));
            },
            Some(EventKind::ResolveFutures { pending_call_ids }) => {
                writer.open(Slot::Pending, resolve_futures_record(pending_call_ids, event));
            },
            Some(EventKind::Complete { value }) => {
                writer.log(complete_record(value, event));
                writer.end_feed();
            },
            Some(EventKind::Error { exception }) => {
                writer.log(error_record(exception, event));
                if self.dump_turn {
                    writer.close(Slot::Turn);
                } else {
                    writer.end_feed();
                }
            },
            Some(EventKind::TypingError { diagnostics }) => {
                writer.log(typing_error_record(diagnostics, event));
                writer.end_feed();
            },
            Some(EventKind::DumpResult { state }) => {
                writer.log(dump_result_record(state, event));
                writer.close(Slot::Turn);
            },
            Some(EventKind::Shutdown { dump }) => {
                writer.log(shutdown_record(dump, event));
            },
            Some(EventKind::Acknowledged) => {
                writer.close(Slot::Turn);
            },
            Some(EventKind::FatalError { message }) => {
                writer.log(fatal_error_record(message));
            },
            None => {
                writer.log(bare_record(Shape::NoKind));
            },
        }
        self.spans = writer.spans;
        writer.ops
    }
}

/// The spans left open by one step, `None` when the step is impossible: a close
/// of a span that is not open, or a parent that is not open.
pub open spec fn replay_op(spans: Spans, op: OpView) -> Option<Spans> {
    match op {
        OpView::Open { slot, parent, .. } => match parent {
            Some(parent) => if holds(spans, parent) {
                Some(with_slot(spans, slot, true))
            } else {
                None
            },
            None => Some(with_slot(spans, slot, true)),
        },
        OpView::Log { parent, .. } => match parent {
            Some(parent) => if holds(spans, parent) {
                Some(spans)
            } else {
                None
            },
            None => Some(spans),
        },
        OpView::Close { slot } => if holds(spans, slot) {
            Some(with_slot(spans, slot, false))
        } else {
            None
        },
    }
}

/// The spans left open by carrying out `ops`, `None` when a step is impossible.
pub open spec fn replay(spans: Spans, ops: Seq<OpView>) -> Option<Spans>
    decreases ops.len(),
{
    if ops.len() == 0 {
        Some(spans)
    } else {
        match replay(spans, ops.drop_last()) {
            Some(before) => replay_op(before, ops.last()),
            None => None,
        }
    }
}

/// Whether the steps taken so far can be carried out from `base` and leave
/// exactly the spans open that the recorder believes are open.
spec fn faithful(base: Spans, at: Progress) -> bool {
    replay(base, at.ops) == Some(at.spans)
}

proof fn lemma_step(base: Spans, at: Progress, op: OpView, spans: Spans)
    requires
        faithful(base, at),
        replay_op(at.spans, op) == Some(spans),
    ensures
        faithful(base, Progress { spans, ops: at.ops.push(op) }),
{
    assert(at.ops.push(op).drop_last() =~= at.ops);
}

proof fn lemma_close(base: Spans, at: Progress, slot: Slot)
    requires
        faithful(base, at),
    ensures
        faithful(base, close(at, slot)),
{
    if holds(at.spans, slot) {
        lemma_step(base, at, OpView::Close { slot }, with_slot(at.spans, slot, false));
    }
}

proof fn lemma_open(
    base: Spans,
    at: Progress,
    slot: Slot,
    parent: Option<Slot>,
    record: RecordView,
)
    requires
        faithful(base, at),
        parent is None || holds(at.spans, parent->0),
    ensures
        faithful(base, open_under(at, slot, parent, record)),
{
    lemma_step(
        base,
        at,
        OpView::Open { slot, parent, record },
        with_slot(at.spans, slot, true),
    );
}

proof fn lemma_log(base: Spans, at: Progress, record: RecordView)
    requires
        faithful(base, at),
    ensures
        faithful(base, log(at, record)),
{
    lemma_step(base, at, OpView::Log { parent: innermost(at.spans), record }, at.spans);
}

proof fn lemma_answer(base: Spans, at: Progress, record: RecordView)
    requires
        faithful(base, at),
    ensures
        faithful(base, answer(at, record)),
{
    let parent = if at.spans.pending {
        Some(Slot::Pending)
    } else {
        None
    };
    let op = OpView::Log { parent, record };
    lemma_step(base, at, op, at.spans);
    lemma_close(base, Progress { ops: at.ops.push(op), ..at }, Slot::Pending);
}

proof fn lemma_close_all(base: Spans, at: Progress, first: Slot, second: Slot, third: Slot)
    requires
        faithful(base, at),
    ensures
        faithful(base, close(at, first)),
        faithful(base, close(close(at, first), second)),
        faithful(base, close(close(close(at, first), second), third)),
{
    lemma_close(base, at, first);
    lemma_close(base, close(at, first), second);
    lemma_close(base, close(close(at, first), second), third);
}

/// The steps of a request can be carried out from the spans open before it,
/// and leave open exactly the spans the recorder holds afterwards: nothing is
/// closed twice, and everything is recorded inside an open span.
pub proof fn law_request_trace_is_faithful(state: RecorderView, request: Option<ParentRequest>)
    ensures
        replay(state.spans, request_trace(state, request).ops) == Some(
            request_trace(state, request).spans,
        ),
{
    let base = state.spans;
    let start = Progress { spans: base, ops: Seq::empty() };
    assert(faithful(base, start));
    lemma_close(base, start, Slot::Turn);
    let at = close(start, Slot::Turn);
    lemma_close_all(base, at, Slot::Pending, Slot::Feed, Slot::Session);
    let cleared = close(close(at, Slot::Pending), Slot::Feed);
    match request {
        Some(ParentRequest::Configure(configure)) => lemma_open(
            base,
            cleared,
            Slot::Session,
            None,
            session_view(configure, state.worker_pid),
        ),
        Some(ParentRequest::Load { state: dump }) => lemma_open(
            base,
            at,
            Slot::Turn,
            innermost(at.spans),
            load_view(dump@.len()),
        ),
        Some(ParentRequest::InstallDependencies { requirements }) => lemma_open(
            base,
            at,
            Slot::Turn,
            innermost(at.spans),
            install_view(requirements@),
        ),
        Some(ParentRequest::Feed(feed)) => lemma_open(
            base,
            cleared,
            Slot::Feed,
            innermost(cleared.spans),
            feed_view(feed),
        ),
        Some(ParentRequest::ResumeCall { call_id, result }) => lemma_answer(
            base,
            at,
            call_result_view(call_id, result),
        ),
        Some(ParentRequest::ResumeNameLookup { kind }) => lemma_answer(
            base,
            at,
            name_lookup_result_view(kind),
        ),
        Some(ParentRequest::ResumeFutures { results }) => lemma_answer(
            base,
            at,
            future_results_view(results@),
        ),
        Some(ParentRequest::Dump) => lemma_open(
            base,
            at,
            Slot::Turn,
            innermost(at.spans),
            bare_view(Shape::Dump),
        ),
        _ => {},
    }
}

/// The steps of an event can be carried out from the spans open before it, and
/// leave open exactly the spans the recorder holds afterwards.
pub proof fn law_event_trace_is_faithful(state: RecorderView, event: ChildEvent)
    ensures
        replay(state.spans, event_trace(state, event).ops) == Some(
            event_trace(state, event).spans,
        ),
{
    let base = state.spans;
    let start = Progress { spans: base, ops: Seq::empty() };
    assert(faithful(base, start));
    let at = match event.restored_script_name {
        Some(script_name) => log(start, restored_view(script_name@)),
        None => start,
    };
    if let Some(script_name) = event.restored_script_name {
        lemma_log(base, start, restored_view(script_name@));
    }
    match event.kind {
        Some(EventKind::Print { text, stream }) => lemma_log(base, at, print_view(text@, stream)),
        Some(EventKind::FunctionCall(call)) => lemma_open(
            base,
            at,
            Slot::Pending,
            innermost(at.spans),
            function_call_view(call, event),
        ),
        Some(EventKind::OsCall(call)) => lemma_open(
            base,
            at,
            Slot::Pending,
            innermost(at.spans),
            os_call_view(call, event),
        ),
        Some(EventKind::NameLookup { name }) => lemma_open(
            base,
            at,
            Slot::Pending,
            innermost(at.spans),
            name_lookup_view(name@, event),
        ),
        Some(EventKind::ResolveFutures { pending_call_ids }) => lemma_open(
            base,
            at,
            Slot::Pending,
            innermost(at.spans),
            resolve_futures_view(pending_call_ids@, event),
        ),
        Some(EventKind::Complete { value }) => {
            let record = complete_view(value, event);
            lemma_log(base, at, record);
            lemma_close_all(base, log(at, record), Slot::Turn, Slot::Pending, Slot::Feed);
        },
        Some(EventKind::Error { exception }) => {
            let record = error_view(exception, event);
            lemma_log(base, at, record);
            lemma_close_all(base, log(at, record), Slot::Turn, Slot::Pending, Slot::Feed);
        },
        Some(EventKind::TypingError { diagnostics }) => {
            let record = typing_error_view(diagnostics@, event);
            lemma_log(base, at, record);
            lemma_close_all(base, log(at, record), Slot::Turn, Slot::Pending, Slot::Feed);
        },
        Some(EventKind::DumpResult { state: dump }) => {
            let record = dump_result_view(dump@.len(), event);
            lemma_log(base, at, record);
            lemma_close(base, log(at, record), Slot::Turn);
        },
        Some(EventKind::Shutdown { dump }) => lemma_log(base, at, shutdown_view(dump, event)),
        Some(EventKind::Acknowledged) => lemma_close(base, at, Slot::Turn),
        Some(EventKind::FatalError { message }) => lemma_log(base, at, fatal_error_view(message@)),
        None => lemma_log(base, at, bare_view(Shape::NoKind)),
    }
}

/// A disabled recorder stays as it is, whatever passes through it.
pub proof fn law_disabled_recorder_is_inert(
    state: RecorderView,
    request: Option<ParentRequest>,
    event: ChildEvent,
)
    requires
        !state.enabled,
    ensures
        after_request(state, request) == state,
        after_event(state, event) == state,
{
}

/// A reset or a shutdown leaves nothing open.
pub proof fn law_reset_closes_everything(state: RecorderView, request: Option<ParentRequest>)
    requires
        state.enabled,
        request matches Some(ParentRequest::Reset) || request matches Some(
            ParentRequest::Shutdown,
        ),
    ensures
        innermost(after_request(state, request).spans) is None,
{
}

/// An event that ends a feed closes the feed, its suspension and its turn, and
/// leaves the session open.
pub proof fn law_feed_ends(state: RecorderView, event: ChildEvent)
    requires
        state.enabled,
        event.kind matches Some(kind) && (kind is Complete || kind is TypingError || (kind is Error
            && !state.dump_turn)),
    ensures
        after_event(state, event).spans == (Spans {
            turn: false,
            pending: false,
            feed: false,
            session: state.spans.session,
        }),
{
}

/// An error reply to a dump ends only the dump: the feed and the suspension it
/// is blocked on stay open.
pub proof fn law_failed_dump_keeps_the_feed(
    state: RecorderView,
    dump: Option<ParentRequest>,
    event: ChildEvent,
)
    requires
        state.enabled,
        dump matches Some(ParentRequest::Dump),
        event.kind matches Some(EventKind::Error { .. }),
    ensures
        after_event(after_request(state, dump), event).spans == (Spans {
            turn: false,
            ..state.spans
        }),
{
}

/// A suspension opened by an event is what the next resume answers: its result
/// is recorded inside the suspension's span, which then closes, and the spans
/// around it stay as they were.
pub proof fn law_resume_answers_the_suspension(
    state: RecorderView,
    event: ChildEvent,
    resume: Option<ParentRequest>,
)
    requires
        state.enabled,
        event.kind matches Some(kind) && (kind is FunctionCall || kind is OsCall
            || kind is NameLookup || kind is ResolveFutures),
        resume matches Some(request) && (request is ResumeCall || request is ResumeNameLookup
            || request is ResumeFutures),
    ensures
        ({
            let suspended = after_event(state, event);
            let ops = request_trace(suspended, resume).ops;
            let answered = ops.skip(if state.spans.turn { 1 } else { 0 });
            &&& suspended.spans.pending
            &&& answered.len() == 2
            &&& answered[0] matches OpView::Log { parent, .. } && parent == Some(Slot::Pending)
            &&& answered[1] == OpView::Close { slot: Slot::Pending }
            &&& after_request(suspended, resume).spans == (Spans {
                turn: false,
                pending: false,
                ..state.spans
            })
        }),
{
}

} // verus!
