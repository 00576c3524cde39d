//! Metrics of one worker's turns, taken from the requests sent to it and the
//! events it answers with.

use crate::instruments::{Instrument, MetricKind};
use crate::metrics::{
    attr, attributes_1, attributes_2, frame_measurement, held_i64, measurement, Measurement,
    MeasurementView, MetricValue, MetricValueView, Metrics,
};
use crate::protocol::{
    call_name, call_name_text, print_stream, stream_name, Call, ChildEvent, EventKind, ExtResult,
    NameLookupResult, OsCall, ParentRequest, RaisedException, WireValue,
};
use crate::record::{attrs_view, put, AttrValue, AttrView, Attribute};
use crate::span_records::os_call_view;
use crate::text::byte_len;
use crate::time::{between, Clock, Duration, MAX_NANOS, NANOS_PER_MICRO};
use vstd::prelude::*;
use vstd::utf8::encode_utf8;

verus! {

/// The housekeeping turns, which run no code.
#[derive(Debug, Clone, Copy, PartialEq, Eq, Structural)]
pub enum TurnKind {
    Configure,
    Load,
    Dump,
    InstallDependencies,
    Reset,
}

/// The label of a housekeeping turn.
pub open spec fn turn_name(turn: TurnKind) -> Seq<char> {
    match turn {
        TurnKind::Configure => "configure"@,
        TurnKind::Load => "load"@,
        TurnKind::Dump => "dump"@,
        TurnKind::InstallDependencies => "install_dependencies"@,
        TurnKind::Reset => "reset"@,
    }
}

impl TurnKind {
    /// The label of this turn.
    pub fn name(self) -> (name: &'static str)
        ensures
            name@ == turn_name(self),
    {
        match self {
            TurnKind::Configure => "configure",
            TurnKind::Load => "load",
            TurnKind::Dump => "dump",
            TurnKind::InstallDependencies => "install_dependencies",
            TurnKind::Reset => "reset",
        }
    }
}

/// How the host answered a suspension.
#[derive(Debug, Clone, Copy, PartialEq, Eq, Structural)]
pub enum Answer {
    Value,
    Error,
    Future,
    NotFound,
    NotHandled,
    Missing,
    Undefined,
    Resolved,
}

/// The label of an answer.
pub open spec fn answer_name(answer: Answer) -> Seq<char> {
    match answer {
        Answer::Value => "value"@,
        Answer::Error => "error"@,
        Answer::Future => "future"@,
        Answer::NotFound => "not_found"@,
        Answer::NotHandled => "not_handled"@,
        Answer::Missing => "missing"@,
        Answer::Undefined => "undefined"@,
        Answer::Resolved => "resolved"@,
    }
}

impl Answer {
    /// The label of this answer.
    pub fn name(self) -> (name: &'static str)
        ensures
            name@ == answer_name(self),
    {
        match self {
            Answer::Value => "value",
            Answer::Error => "error",
            Answer::Future => "future",
            Answer::NotFound => "not_found",
            Answer::NotHandled => "not_handled",
            Answer::Missing => "missing",
            Answer::Undefined => "undefined",
            Answer::Resolved => "resolved",
        }
    }

    /// Whether this answer shows that the host resolved the called function.
    pub fn is_resolved(self) -> (found: bool)
        ensures
            found == resolved(self),
    {
        match self {
            Answer::Value | Answer::Error | Answer::Future => true,
            _ => false,
        }
    }
}

/// How a call was answered.
pub open spec fn ext_answer(result: Option<ExtResult>) -> Answer {
    match result {
        Some(ExtResult::ReturnValue(_)) => Answer::Value,
        Some(ExtResult::Error(_)) => Answer::Error,
        Some(ExtResult::Future(_)) => Answer::Future,
        Some(ExtResult::NotFound(_)) => Answer::NotFound,
        Some(ExtResult::NotHandled) => Answer::NotHandled,
        None => Answer::Missing,
    }
}

/// The value a call was answered with.
pub open spec fn ext_value(result: Option<ExtResult>) -> Option<WireValue> {
    match result {
        Some(ExtResult::ReturnValue(value)) => Some(value),
        _ => None,
    }
}

/// Classifies the answer to a call, with the returned value when there is one.
pub fn ext_result(result: &Option<ExtResult>) -> (classified: (Answer, Option<&WireValue>))
    ensures
        classified.0 == ext_answer(*result),
        match classified.1 {
            Some(value) => ext_value(*result) == Some(*value),
            None => ext_value(*result) is None,
        },
{
    match result {
        Some(ExtResult::ReturnValue(value)) => (Answer::Value, Some(value)),
        Some(ExtResult::Error(_)) => (Answer::Error, None),
        Some(ExtResult::Future(_)) => (Answer::Future, None),
        Some(ExtResult::NotFound(_)) => (Answer::NotFound, None),
        Some(ExtResult::NotHandled) => (Answer::NotHandled, None),
        None => (Answer::Missing, None),
    }
}

/// How a name lookup was answered.
pub open spec fn name_answer(kind: Option<NameLookupResult>) -> Answer {
    match kind {
        Some(NameLookupResult::Value(_)) => Answer::Value,
        Some(NameLookupResult::Undefined) => Answer::Undefined,
        None => Answer::Missing,
    }
}

/// The fixed name of an operating system call.
pub open spec fn os_call_name(call: Option<Call>) -> Seq<char> {
    match call {
        Some(call) => call_name_text(call),
        None => "unknown"@,
    }
}

/// Whether the answer to an operating system call carries read bytes.
pub open spec fn os_call_reads(call: Option<Call>) -> bool {
    call matches Some(Call::ReadText(_)) || call matches Some(Call::ReadBytes(_))
}

/// The fixed name of an operating system call, and whether its answer carries
/// read bytes.
pub fn os_call(call: &Option<Call>) -> (classified: (&'static str, bool))
    ensures
        classified.0@ == os_call_name(*call),
        classified.1 == os_call_reads(*call),
{
    match call {
        Some(call) => {
            let reads = match call {
                Call::ReadText(_) | Call::ReadBytes(_) => true,
                _ => false,
            };
            (call_name(call), reads)
        },
        None => ("unknown", false),
    }
}

/// Payload size of an operating system call that writes.
pub open spec fn written_bytes(call: Option<Call>) -> Option<nat> {
    match call {
        Some(Call::WriteText(write)) => Some(encode_utf8(write.data@).len()),
        Some(Call::AppendText(write)) => Some(encode_utf8(write.data@).len()),
        Some(Call::WriteBytes(write)) => Some(write.data.data@.len()),
        Some(Call::AppendBytes(write)) => Some(write.data.data@.len()),
        _ => None,
    }
}

/// Payload size of an operating system call that writes, `None` for one that
/// does not.
pub fn os_call_written(call: &Option<Call>) -> (written: Option<usize>)
    ensures
        match written {
            Some(written) => written_bytes(*call) == Some(written as nat),
            None => written_bytes(*call) is None,
        },
{
    match call {
        Some(Call::WriteText(write)) => Some(byte_len(write.data.as_str())),
        Some(Call::AppendText(write)) => Some(byte_len(write.data.as_str())),
        Some(Call::WriteBytes(write)) => Some(write.data.data.len()),
        Some(Call::AppendBytes(write)) => Some(write.data.data.len()),
        _ => None,
    }
}

/// Size of a value that was read.
pub open spec fn read_bytes(value: Option<WireValue>) -> Option<nat> {
    match value {
        Some(WireValue::Text(text)) => Some(encode_utf8(text@).len()),
        Some(WireValue::Bytes(bytes)) => Some(bytes.data@.len()),
        _ => None,
    }
}

/// Size of a value returned by a reading call.
pub fn value_len(value: Option<&WireValue>) -> (len: Option<usize>)
    ensures
        match len {
            Some(len) => value is Some && read_bytes(Some(*value->0)) == Some(len as nat),
            None => value is Some ==> read_bytes(Some(*value->0)) is None,
        },
{
    match value {
        Some(WireValue::Text(text)) => Some(byte_len(text.as_str())),
        Some(WireValue::Bytes(bytes)) => Some(bytes.data.len()),
        _ => None,
    }
}

/// The label of the exception that ended a feed.
pub open spec fn exception_label_text(known: Option<&'static str>) -> Seq<char> {
    match known {
        Some(name) => name@,
        None => "other"@,
    }
}

/// Bounds the label of an exception to the classes the interpreter knows: the
/// sandbox can raise a class of any name, and each distinct name would
/// otherwise become its own time series.
pub fn exception_label(known: Option<&'static str>) -> (label: &'static str)
    ensures
        label@ == exception_label_text(known),
{
    match known {
        Some(name) => name,
        None => "other",
    }
}

/// The class name the interpreter has for an exception.
pub open spec fn known_class(exception: Option<RaisedException>) -> Option<&'static str> {
    match exception {
        Some(exception) => exception.known,
        None => None,
    }
}

/// What a pending suspension needs remembered to record its answer.
#[derive(Debug)]
pub enum Suspension {
    /// A call of a host function, named by the sandboxed code.
    Function { name: String },
    /// An operating system call: its fixed name, and whether the answer
    /// carries read bytes.
    Os { function: &'static str, reads: bool },
    NameLookup,
    Futures,
}

/// A pending suspension with its names as text.
pub enum SuspensionView {
    Function { name: Seq<char> },
    Os { function: Seq<char>, reads: bool },
    NameLookup,
    Futures,
}

impl View for Suspension {
    type V = SuspensionView;

    open spec fn view(&self) -> SuspensionView {
        match *self {
            Suspension::Function { name } => SuspensionView::Function { name: name@ },
            Suspension::Os { function, reads } => SuspensionView::Os { function: function@, reads },
            Suspension::NameLookup => SuspensionView::NameLookup,
            Suspension::Futures => SuspensionView::Futures,
        }
    }
}

/// The label a suspension is counted under.
pub open spec fn suspension_label(suspension: SuspensionView) -> Seq<char> {
    match suspension {
        SuspensionView::Function { .. } => "function"@,
        SuspensionView::Os { .. } => "os"@,
        SuspensionView::NameLookup => "name_lookup"@,
        SuspensionView::Futures => "futures"@,
    }
}

impl Suspension {
    /// The label this suspension is counted under.
    pub fn label(&self) -> (label: &'static str)
        ensures
            label@ == suspension_label(self@),
    {
        match self {
            Suspension::Function { .. } => "function",
            Suspension::Os { .. } => "os",
            Suspension::NameLookup => "name_lookup",
            Suspension::Futures => "futures",
        }
    }
}

/// What the metrics of one worker know between two messages, and what they
/// have recorded. Moments are nanoseconds on `clock`.
pub struct TurnState {
    pub clock: Clock,
    /// When the feed in flight started.
    pub feed: Option<nat>,
    /// The suspension the feed is blocked on, and since when.
    pub pending: Option<(SuspensionView, nat)>,
    /// The housekeeping turn in flight, and since when.
    pub turn: Option<(TurnKind, nat)>,
    /// Whether a load went out last and its reply is still to come.
    pub loading: bool,
    /// Execution time the session reported last.
    pub reported_micros: u64,
    pub recorded: Seq<MeasurementView>,
}

/// `state` with one more measurement.
pub open spec fn with_measurement(state: TurnState, taken: MeasurementView) -> TurnState {
    TurnState { recorded: state.recorded.push(taken), ..state }
}

/// The measurement of bytes crossing a mount.
pub open spec fn io_measurement(direction: Seq<char>, len: nat) -> MeasurementView {
    measurement(
        Instrument::OsIo,
        MetricValueView::I64(held_i64(len)),
        seq![attr("direction"@, direction)],
    )
}

/// Counts a suspension and starts timing the host's answer.
pub open spec fn suspended(
    state: TurnState,
    suspension: SuspensionView,
    now: nat,
) -> TurnState {
    TurnState {
        pending: Some((suspension, now)),
        ..with_measurement(
            state,
            measurement(
                Instrument::Suspensions,
                MetricValueView::I64(1),
                seq![attr("kind"@, suspension_label(suspension))],
            ),
        )
    }
}

/// Whether an answer shows that the host resolved the function that was called:
/// it ran, to its end or in the background.
pub open spec fn resolved(answer: Answer) -> bool {
    answer == Answer::Value || answer == Answer::Error || answer == Answer::Future
}

/// The round-trip of an answered suspension. The called function's name is an
/// attribute only when the host resolved it: an unresolved name is whatever
/// the sandboxed code wrote.
pub open spec fn round_trip(
    suspension: SuspensionView,
    answer: Answer,
    waited: nat,
) -> MeasurementView {
    let labels = seq![
        attr("kind"@, suspension_label(suspension)),
        attr("outcome"@, answer_name(answer)),
    ];
    match suspension {
        SuspensionView::Os { function, .. } => measurement(
            Instrument::OsCall,
            MetricValueView::Seconds(waited),
            seq![attr("function"@, function), attr("outcome"@, answer_name(answer))],
        ),
        SuspensionView::Function { name } => measurement(
            Instrument::HostCall,
            MetricValueView::Seconds(waited),
            if resolved(answer) {
                labels.push(attr("function"@, name))
            } else {
                labels
            },
        ),
        _ => measurement(Instrument::HostCall, MetricValueView::Seconds(waited), labels),
    }
}

/// The pending suspension answered with `answer` at `now`.
pub open spec fn suspension_closed(
    state: TurnState,
    answer: Answer,
    value: Option<WireValue>,
    now: nat,
) -> TurnState {
    match state.pending {
        Some((suspension, start)) => {
            let closed = TurnState { pending: None, ..state };
            let counted = match suspension {
                SuspensionView::Os { reads: true, .. } => match read_bytes(value) {
                    Some(len) => with_measurement(closed, io_measurement("read"@, len)),
                    None => closed,
                },
                _ => closed,
            };
            with_measurement(counted, round_trip(suspension, answer, between(start, now)))
        },
        None => state,
    }
}

/// The open housekeeping turn ended at `now`.
pub open spec fn turn_ended(state: TurnState, outcome: Seq<char>, now: nat) -> TurnState {
    match state.turn {
        Some((turn, start)) => with_measurement(
            TurnState { turn: None, ..state },
            measurement(
                Instrument::TurnDuration,
                MetricValueView::Seconds(between(start, now)),
                seq![attr("turn"@, turn_name(turn)), attr("outcome"@, outcome)],
            ),
        ),
        None => state,
    }
}

/// The execution time a run adds to what the session reported before. The
/// reported total never rewinds, even from a worker misreporting it.
pub open spec fn execution_delta(reported: u64, total: u64) -> nat {
    if total > reported {
        (total - reported) as nat
    } else {
        0
    }
}

/// The measurement of the execution time of one run.
pub open spec fn execution_measurement(micros: nat) -> MeasurementView {
    measurement(
        Instrument::RunExecution,
        MetricValueView::Seconds(micros * NANOS_PER_MICRO as nat),
        Seq::empty(),
    )
}

/// The metrics with the execution clock re-based by the first reply to a load:
/// what the restored session had used before belongs to no run seen here.
pub open spec fn rebased(state: TurnState, event: ChildEvent) -> TurnState {
    if state.loading {
        TurnState { loading: false, reported_micros: event.total_execution_micros, ..state }
    } else {
        state
    }
}

/// A run ended: its wall time, the sandbox time it consumed, and how much of
/// any duration budget that leaves. A feed whose start was never seen has no
/// wall time.
pub open spec fn run_ended(
    state: TurnState,
    outcome: Seq<char>,
    event: ChildEvent,
    now: nat,
) -> TurnState {
    let total = event.total_execution_micros;
    let quiet = turn_ended(TurnState { pending: None, loading: false, ..state }, outcome, now);
    let timed = match quiet.feed {
        Some(start) => with_measurement(
            TurnState { feed: None, ..quiet },
            measurement(
                Instrument::RunDuration,
                MetricValueView::Seconds(between(start, now)),
                seq![attr("outcome"@, outcome)],
            ),
        ),
        None => quiet,
    };
    let charged = with_measurement(
        TurnState {
            reported_micros: if total > state.reported_micros {
                total
            } else {
                state.reported_micros
            },
            ..timed
        },
        execution_measurement(execution_delta(state.reported_micros, total)),
    );
    match event.max_duration_micros {
        Some(budget) => if budget > 0 {
            with_measurement(
                charged,
                measurement(
                    Instrument::RunBudget,
                    MetricValueView::Ratio { used: total as nat, budget: budget as nat },
                    Seq::empty(),
                ),
            )
        } else {
            charged
        },
        None => charged,
    }
}

/// The metrics after a request went out at `now`.
pub open spec fn request_recorded(
    state: TurnState,
    request: Option<ParentRequest>,
    now: nat,
) -> TurnState {
    match request {
        Some(request) => turn_begun(
            TurnState { loading: request is Load, ..state },
            request,
            now,
        ),
        None => state,
    }
}

/// The metrics after a request that says something went out at `now`.
pub open spec fn turn_begun(state: TurnState, request: ParentRequest, now: nat) -> TurnState {
    match request {
        // a new session: its execution clock restarts, so the delta does too
        ParentRequest::Configure(_) => TurnState {
            feed: None,
            pending: None,
            turn: Some((TurnKind::Configure, now)),
            reported_micros: 0,
            ..state
        },
        ParentRequest::Feed(_) => TurnState { pending: None, feed: Some(now), ..state },
        // a load adopts the dumped session's clock; the first reply re-bases it
        ParentRequest::Load { .. } => TurnState {
            reported_micros: 0,
            turn: Some((TurnKind::Load, now)),
            ..state
        },
        ParentRequest::Dump => TurnState { turn: Some((TurnKind::Dump, now)), ..state },
        ParentRequest::InstallDependencies { .. } => TurnState {
            turn: Some((TurnKind::InstallDependencies, now)),
            ..state
        },
        ParentRequest::Reset => TurnState {
            feed: None,
            pending: None,
            turn: Some((TurnKind::Reset, now)),
            ..state
        },
        // no reply is awaited, so nothing is left open to close
        ParentRequest::Shutdown => TurnState {
            feed: None,
            pending: None,
            turn: None,
            ..state
        },
        ParentRequest::ResumeCall { result, .. } => suspension_closed(
            state,
            ext_answer(result),
            ext_value(result),
            now,
        ),
        ParentRequest::ResumeNameLookup { kind } => suspension_closed(
            state,
            name_answer(kind),
            None,
            now,
        ),
        ParentRequest::ResumeFutures { .. } => suspension_closed(
            state,
            Answer::Resolved,
            None,
            now,
        ),
    }
}

/// Whether the moment of a request matters: it starts or ends something.
pub open spec fn request_is_timed(request: Option<ParentRequest>) -> bool {
    request matches Some(request) && !(request is Shutdown)
}

/// Whether the moment of an event matters: it starts or ends something.
pub open spec fn event_is_timed(event: ChildEvent) -> bool {
    event.kind matches Some(kind) && !(kind is Print || kind is FatalError || kind is Shutdown)
}

/// The metrics after an event arrived at `now`.
pub open spec fn event_recorded(state: TurnState, event: ChildEvent, now: nat) -> TurnState {
    match event.kind {
        Some(EventKind::Print { text, stream }) => with_measurement(
            state,
            measurement(
                Instrument::PrintBytes,
                MetricValueView::I64(held_i64(encode_utf8(text@).len())),
                seq![attr("stream"@, stream_name(stream))],
            ),
        ),
        Some(EventKind::FunctionCall(call)) => suspended(
            rebased(state, event),
            SuspensionView::Function { name: call.function_name@ },
            now,
        ),
        Some(EventKind::OsCall(call)) => {
            // a write's payload is in the request the sandbox made, so its
            // size is known now; a read's arrives with the host's answer
            let at = rebased(state, event);
            let counted = match written_bytes(call.call) {
                Some(written) => with_measurement(at, io_measurement("write"@, written)),
                None => at,
            };
            suspended(
                counted,
                SuspensionView::Os {
                    function: os_call_name(call.call),
                    reads: os_call_reads(call.call),
                },
                now,
            )
        },
        Some(EventKind::NameLookup { .. }) => suspended(
            rebased(state, event),
            SuspensionView::NameLookup,
            now,
        ),
        Some(EventKind::ResolveFutures { .. }) => suspended(
            rebased(state, event),
            SuspensionView::Futures,
            now,
        ),
        Some(EventKind::Complete { .. }) => run_ended(state, "complete"@, event, now),
        Some(EventKind::Error { exception }) => {
            let counted = with_measurement(
                rebased(state, event),
                measurement(
                    Instrument::Errors,
                    MetricValueView::I64(1),
                    seq![attr("exc_type"@, exception_label_text(known_class(exception)))],
                ),
            );
            // an error answering a dump leaves the feed suspended and
            // resumable, so only the dump ends here
            if dumping(state) {
                turn_ended(counted, "error"@, now)
            } else {
                run_ended(counted, "error"@, event, now)
            }
        },
        Some(EventKind::TypingError { .. }) => run_ended(state, "typing_error"@, event, now),
        Some(EventKind::DumpResult { state: dump }) => turn_ended(
            with_measurement(
                state,
                measurement(
                    Instrument::SnapshotBytes,
                    MetricValueView::I64(held_i64(dump@.len())),
                    seq![attr("op"@, "dump"@)],
                ),
            ),
            "ok"@,
            now,
        ),
        Some(EventKind::Acknowledged) => turn_ended(rebased(state, event), "ok"@, now),
        // the worker is about to exit; the pool counts the termination
        Some(EventKind::FatalError { .. }) => state,
        Some(EventKind::Shutdown { .. }) => state,
        None => state,
    }
}

/// Whether the turn in flight is a dump.
pub open spec fn dumping(state: TurnState) -> bool {
    state.turn matches Some((TurnKind::Dump, _))
}

/// Records one worker's turns, from its first checkout to its last.
#[derive(Debug)]
pub struct TurnMetrics {
    metrics: Metrics,
    clock: Clock,
    feed: Option<Duration>,
    pending: Option<(Suspension, Duration)>,
    turn: Option<(TurnKind, Duration)>,
    loading: bool,
    reported_micros: u64,
}

impl View for TurnMetrics {
    type V = TurnState;

    closed spec fn view(&self) -> TurnState {
        TurnState {
            clock: self.clock,
            feed: match self.feed {
                Some(start) => Some(start@),
                None => None,
            },
            pending: match self.pending {
                Some((suspension, start)) => Some((suspension@, start@)),
                None => None,
            },
            turn: match self.turn {
                Some((turn, start)) => Some((turn, start@)),
                None => None,
            },
            loading: self.loading,
            reported_micros: self.reported_micros,
            recorded: self.metrics@,
        }
    }
}

impl TurnMetrics {
    /// Creates the per-worker recorder, which outlives the checkouts it serves.
    pub fn new(metrics: Metrics) -> (turns: TurnMetrics)
        ensures
            turns@ == (TurnState {
                clock: turns@.clock,
                feed: None,
                pending: None,
                turn: None,
                loading: false,
                reported_micros: 0,
                recorded: metrics@,
            }),
    {
        TurnMetrics {
            metrics,
            clock: Clock::start(),
            feed: None,
            pending: None,
            turn: None,
            loading: false,
            reported_micros: 0,
        }
    }

    /// Hands over every queued measurement, oldest first.
    pub fn take_measurements(&mut self) -> (measurements: Vec<Measurement>)
        ensures
            measurements@.map_values(|taken: Measurement| taken@) == old(
                self,
            )@.recorded,
            final(self)@ == (TurnState { recorded: Seq::empty(), ..old(self)@ }),
    {
        self.metrics.take()
    }

    /// Records the size of one frame that reached the wire.
    pub fn frame(&mut self, direction: &'static str, len: usize)
        ensures
            final(self)@ == with_measurement(
                old(self)@,
                frame_measurement(direction@, len as nat),
            ),
    {
        self.metrics.record(
            Instrument::FrameBytes,
            MetricValue::bytes(len),
            attributes_1("direction", direction),
        );
    }

    /// Starts timing one turn; called once the request is on the wire. The clock
    /// is only read for a request that starts or ends something.
    pub fn begin_turn(&mut self, request: &Option<ParentRequest>)
        ensures
            exists|now: nat|
                now <= MAX_NANOS && (request_is_timed(*request) ==> old(self)@.clock.shows(now))
                    && final(self)@ == #[trigger] request_recorded(old(self)@, *request, now),
    {
        let now = match request {
            Some(ParentRequest::Shutdown) | None => Duration::zero(),
            _ => self.clock.read(),
        };
        self.begin_turn_at(request, now);
    }

    /// Starts timing one turn at a moment of this recorder's clock. The resume
    /// family opens nothing: it answers the open suspension, so it closes that,
    /// which makes the recorded duration the host round-trip.
    pub fn begin_turn_at(&mut self, request: &Option<ParentRequest>, now: Duration)
        ensures
            final(self)@ == request_recorded(old(self)@, *request, now@),
    {
        if request.is_some() {
            self.loading = false;
        }
        match request {
            Some(ParentRequest::Configure(_)) => {
                self.feed = None;
                self.pending = None;
                self.turn = Some((TurnKind::Configure, now));
                self.reported_micros = 0;
            },
            Some(ParentRequest::Feed(_)) => {
                self.pending = None;
                self.feed = Some(now);
            },
            Some(ParentRequest::Load { .. }) => {
                self.reported_micros = 0;
                self.loading = true;
                self.turn = Some((TurnKind::Load, now));
            },
            Some(ParentRequest::Dump) => {
                self.turn = Some((TurnKind::Dump, now));
            },
            Some(ParentRequest::InstallDependencies { .. }) => {
                self.turn = Some((TurnKind::InstallDependencies, now));
            },
            Some(ParentRequest::Reset) => {
                self.feed = None;
                self.pending = None;
                self.turn = Some((TurnKind::Reset, now));
            },
            Some(ParentRequest::Shutdown) => {
                self.feed = None;
                self.pending = None;
                self.turn = None;
            },
            Some(ParentRequest::ResumeCall { result, .. }) => {
                let (answer, value) = ext_result(result);
                self.close_suspension(answer, value, now);
            },
            Some(ParentRequest::ResumeNameLookup { kind }) => {
                let answer = match kind {
                    Some(NameLookupResult::Value(_)) => Answer::Value,
                    Some(NameLookupResult::Undefined) => Answer::Undefined,
                    None => Answer::Missing,
                };
                self.close_suspension(answer, None, now);
            },
            Some(ParentRequest::ResumeFutures { .. }) => {
                self.close_suspension(Answer::Resolved, None, now);
            },
            None => {},
        }
    }

    /// Records one event from the worker. The clock is only read for an event
    /// that starts or ends something.
    pub fn event(&mut self, event: &ChildEvent)
        ensures
            exists|now: nat|
                now <= MAX_NANOS && (event_is_timed(*event) ==> old(self)@.clock.shows(now))
                    && final(self)@ == #[trigger] event_recorded(old(self)@, *event, now),
    {
        let now = match &event.kind {
            Some(EventKind::Print { .. }) | Some(EventKind::FatalError { .. }) | Some(
                EventKind::Shutdown { .. },
            ) | None => Duration::zero(),
            _ => self.clock.read(),
        };
        self.event_at(event, now);
    }

    /// Records one event at a moment of this recorder's clock: a suspension
    /// opens the pending round-trip, a turn-ending event closes the run or
    /// housekeeping turn.
    pub fn event_at(&mut self, event: &ChildEvent, now: Duration)
        ensures
            final(self)@ == event_recorded(old(self)@, *event, now@),
    {
        match &event.kind {
            Some(EventKind::Print { text, stream }) => {
                self.metrics.record(
                    Instrument::PrintBytes,
                    MetricValue::bytes(byte_len(text.as_str())),
                    attributes_1("stream", print_stream(*stream)),
                );
            },
            Some(EventKind::FunctionCall(call)) => {
                self.rebase(event);
                self.suspend(Suspension::Function { name: call.function_name.clone() }, now);
            },
            Some(EventKind::OsCall(call)) => {
                self.rebase(event);
                let (function, reads) = os_call(&call.call);
                if let Some(written) = os_call_written(&call.call) {
                    self.io_bytes("write", written);
                }
                self.suspend(Suspension::Os { function, reads }, now);
            },
            Some(EventKind::NameLookup { .. }) => {
                self.rebase(event);
                self.suspend(Suspension::NameLookup, now);
            },
            Some(EventKind::ResolveFutures { .. }) => {
                self.rebase(event);
                self.suspend(Suspension::Futures, now);
            },
            Some(EventKind::Complete { .. }) => {
                self.end_run("complete", event, now);
            },
            Some(EventKind::Error { exception }) => {
                self.rebase(event);
                let known = match exception {
                    Some(exception) => exception.known,
                    None => None,
                };
                let dump = match self.turn {
                    Some((TurnKind::Dump, _)) => true,
                    _ => false,
                };
                self.metrics.record(
                    Instrument::Errors,
                    MetricValue::I64(1),
                    attributes_1("exc_type", exception_label(known)),
                );
                if dump {
                    self.end_turn("error", now);
                } else {
                    self.end_run("error", event, now);
                }
            },
            Some(EventKind::TypingError { .. }) => {
                self.end_run("typing_error", event, now);
            },
            Some(EventKind::DumpResult { state }) => {
                self.metrics.record(
                    Instrument::SnapshotBytes,
                    MetricValue::bytes(state.len()),
                    attributes_1("op", "dump"),
                );
                self.end_turn("ok", now);
            },
            Some(EventKind::Acknowledged) => {
                self.rebase(event);
                self.end_turn("ok", now);
            },
            Some(EventKind::FatalError { .. }) | Some(EventKind::Shutdown { .. }) | None => {},
        }
    }

    fn rebase(&mut self, event: &ChildEvent)
        ensures
            final(self)@ == rebased(old(self)@, *event),
    {
        if self.loading {
            self.loading = false;
            self.reported_micros = event.total_execution_micros;
        }
    }

    fn suspend(&mut self, suspension: Suspension, now: Duration)
        ensures
            final(self)@ == suspended(old(self)@, suspension@, now@),
    {
        self.metrics.record(
            Instrument::Suspensions,
            MetricValue::I64(1),
            attributes_1("kind", suspension.label()),
        );
        self.pending = Some((suspension, now));
    }

    fn close_suspension(
        &mut self,
        answer: Answer,
        value: Option<&WireValue>,
        now: Duration,
    )
        ensures
            final(self)@ == suspension_closed(
                old(self)@,
                answer,
                match value {
                    Some(value) => Some(*value),
                    None => None,
                },
                now@,
            ),
    {
        let (suspension, start) = match self.pending.take() {
            Some(pending) => pending,
            None => {
                return ;
            },
        };
        let elapsed = MetricValue::seconds(now.since(&start));
        let label = suspension.label();
        match suspension {
            Suspension::Os { function, reads } => {
                if reads {
                    if let Some(read) = value_len(value) {
                        self.io_bytes("read", read);
                    }
                }
                self.metrics.record(
                    Instrument::OsCall,
                    elapsed,
                    attributes_2("function", function, "outcome", answer.name()),
                );
            },
            Suspension::Function { name } => {
                let mut attributes = attributes_2("kind", label, "outcome", answer.name());
                if answer.is_resolved() {
                    put(&mut attributes, "function", AttrValue::Text(name));
                }
                self.metrics.record(Instrument::HostCall, elapsed, attributes);
            },
            Suspension::NameLookup | Suspension::Futures => {
                self.metrics.record(
                    Instrument::HostCall,
                    elapsed,
                    attributes_2("kind", label, "outcome", answer.name()),
                );
            },
        }
    }

    fn end_run(&mut self, outcome: &'static str, event: &ChildEvent, now: Duration)
        ensures
            final(self)@ == run_ended(old(self)@, outcome@, *event, now@),
    {
        self.pending = None;
        self.loading = false;
        self.end_turn(outcome, now);
        if let Some(start) = self.feed.take() {
            self.metrics.record(
                Instrument::RunDuration,
                MetricValue::seconds(now.since(&start)),
                attributes_1("outcome", outcome),
            );
        }
        let total: u64 = event.total_execution_micros;
        let delta: u64 = total.saturating_sub(self.reported_micros);
        if total > self.reported_micros {
            self.reported_micros = total;
        }
        let nothing: Vec<Attribute> = Vec::new();
        assert(attrs_view(nothing@) =~= Seq::<(Seq<char>, AttrView)>::empty());
        self.metrics.record(
            Instrument::RunExecution,
            MetricValue::seconds(Duration::from_micros(delta)),
            nothing,
        );
        if let Some(budget) = event.max_duration_micros {
            if budget > 0 {
                let nothing: Vec<Attribute> = Vec::new();
                assert(attrs_view(nothing@) =~= Seq::<(Seq<char>, AttrView)>::empty());
                self.metrics.record(
                    Instrument::RunBudget,
                    MetricValue::Ratio { used: total, budget },
                    nothing,
                );
            }
        }
    }

    fn end_turn(&mut self, outcome: &'static str, now: Duration)
        ensures
            final(self)@ == turn_ended(old(self)@, outcome@, now@),
    {
        if let Some((turn, start)) = self.turn.take() {
            self.metrics.record(
                Instrument::TurnDuration,
                MetricValue::seconds(now.since(&start)),
                attributes_2("turn", turn.name(), "outcome", outcome),
            );
        }
    }

    fn io_bytes(&mut self, direction: &'static str, len: usize)
        ensures
            final(self)@ == with_measurement(
                old(self)@,
                io_measurement(direction@, len as nat),
            ),
    {
        self.metrics.record(
            Instrument::OsIo,
            MetricValue::bytes(len),
            attributes_1("direction", direction),
        );
    }
}

/// Whether the instrument a measurement belongs to can record its value: only
/// histograms take durations and ratios, and counts are never negative.
pub open spec fn recordable(taken: MeasurementView) -> bool {
    taken.kind == MetricKind::Histogram || (taken.value matches MetricValueView::I64(value)
        && value >= 0)
}

/// Whether `after` is `before` with recordable measurements appended.
pub open spec fn appends_recordable(
    before: Seq<MeasurementView>,
    after: Seq<MeasurementView>,
) -> bool {
    &&& before.len() <= after.len()
    &&& after.subrange(0, before.len() as int) == before
    &&& forall|i: int| before.len() <= i < after.len() ==> recordable(#[trigger] after[i])
}

proof fn lemma_append(base: Seq<MeasurementView>, state: TurnState, taken: MeasurementView)
    requires
        appends_recordable(base, state.recorded),
        recordable(taken),
    ensures
        appends_recordable(base, with_measurement(state, taken).recorded),
{
    assert(state.recorded.push(taken).subrange(0, base.len() as int) =~= state.recorded.subrange(
        0,
        base.len() as int,
    ));
}

proof fn lemma_closed_appends(
    base: Seq<MeasurementView>,
    state: TurnState,
    answer: Answer,
    value: Option<WireValue>,
    now: nat,
)
    requires
        appends_recordable(base, state.recorded),
    ensures
        appends_recordable(base, suspension_closed(state, answer, value, now).recorded),
{
    if let Some((suspension, start)) = state.pending {
        let closed = TurnState { pending: None, ..state };
        let trip = round_trip(suspension, answer, between(start, now));
        lemma_append(base, closed, trip);
        if let Some(len) = read_bytes(value) {
            let read = io_measurement("read"@, len);
            lemma_append(base, closed, read);
            lemma_append(base, with_measurement(closed, read), trip);
        }
    }
}

proof fn lemma_turn_end_appends(
    base: Seq<MeasurementView>,
    state: TurnState,
    outcome: Seq<char>,
    now: nat,
)
    requires
        appends_recordable(base, state.recorded),
    ensures
        appends_recordable(base, turn_ended(state, outcome, now).recorded),
{
    if let Some((turn, start)) = state.turn {
        lemma_append(
            base,
            TurnState { turn: None, ..state },
            turn_ended(state, outcome, now).recorded.last(),
        );
    }
}

proof fn lemma_run_end_appends(
    base: Seq<MeasurementView>,
    state: TurnState,
    outcome: Seq<char>,
    event: ChildEvent,
    now: nat,
)
    requires
        appends_recordable(base, state.recorded),
    ensures
        appends_recordable(base, run_ended(state, outcome, event, now).recorded),
{
    let total = event.total_execution_micros;
    let open = TurnState { pending: None, loading: false, ..state };
    lemma_turn_end_appends(base, open, outcome, now);
    let quiet = turn_ended(open, outcome, now);
    let wall = measurement(
        Instrument::RunDuration,
        MetricValueView::Seconds(between(quiet.feed->0, now)),
        seq![attr("outcome"@, outcome)],
    );
    lemma_append(base, quiet, wall);
    let timed = if quiet.feed is Some {
        with_measurement(quiet, wall)
    } else {
        quiet
    };
    let taken = execution_measurement(execution_delta(state.reported_micros, total));
    lemma_append(base, timed, taken);
    if let Some(budget) = event.max_duration_micros {
        lemma_append(
            base,
            with_measurement(timed, taken),
            measurement(
                Instrument::RunBudget,
                MetricValueView::Ratio { used: total as nat, budget: budget as nat },
                Seq::empty(),
            ),
        );
    }
}

proof fn lemma_suspend_appends(
    base: Seq<MeasurementView>,
    state: TurnState,
    suspension: SuspensionView,
    now: nat,
)
    requires
        appends_recordable(base, state.recorded),
    ensures
        appends_recordable(base, suspended(state, suspension, now).recorded),
{
    lemma_append(base, state, suspended(state, suspension, now).recorded.last());
}

proof fn lemma_request_appends(state: TurnState, request: Option<ParentRequest>, now: nat)
    ensures
        appends_recordable(state.recorded, request_recorded(state, request, now).recorded),
{
    let base = state.recorded;
    assert(base.subrange(0, base.len() as int) =~= base);
    let begun = TurnState { loading: false, ..state };
    match request {
        Some(ParentRequest::ResumeCall { result, .. }) => lemma_closed_appends(
            base,
            begun,
            ext_answer(result),
            ext_value(result),
            now,
        ),
        Some(ParentRequest::ResumeNameLookup { kind }) => lemma_closed_appends(
            base,
            begun,
            name_answer(kind),
            None,
            now,
        ),
        Some(ParentRequest::ResumeFutures { .. }) => lemma_closed_appends(
            base,
            begun,
            Answer::Resolved,
            None,
            now,
        ),
        _ => {},
    }
}

proof fn lemma_event_appends(state: TurnState, event: ChildEvent, now: nat)
    ensures
        appends_recordable(state.recorded, event_recorded(state, event, now).recorded),
{
    let base = state.recorded;
    assert(base.subrange(0, base.len() as int) =~= base);
    let at = rebased(state, event);
    match event.kind {
        Some(EventKind::Print { text, stream }) => lemma_append(
            base,
            state,
            event_recorded(state, event, now).recorded.last(),
        ),
        Some(EventKind::FunctionCall(call)) => lemma_suspend_appends(
            base,
            at,
            SuspensionView::Function { name: call.function_name@ },
            now,
        ),
        Some(EventKind::OsCall(call)) => {
            let suspension = SuspensionView::Os {
                function: os_call_name(call.call),
                reads: os_call_reads(call.call),
            };
            lemma_suspend_appends(base, at, suspension, now);
            if let Some(written) = written_bytes(call.call) {
                let wrote = io_measurement("write"@, written);
                lemma_append(base, at, wrote);
                lemma_suspend_appends(base, with_measurement(at, wrote), suspension, now);
            }
        },
        Some(EventKind::NameLookup { .. }) => lemma_suspend_appends(
            base,
            at,
            SuspensionView::NameLookup,
            now,
        ),
        Some(EventKind::ResolveFutures { .. }) => lemma_suspend_appends(
            base,
            at,
            SuspensionView::Futures,
            now,
        ),
        Some(EventKind::Complete { .. }) => lemma_run_end_appends(
            base,
            state,
            "complete"@,
            event,
            now,
        ),
        Some(EventKind::Error { exception }) => {
            let raised = measurement(
                Instrument::Errors,
                MetricValueView::I64(1),
                seq![attr("exc_type"@, exception_label_text(known_class(exception)))],
            );
            lemma_append(base, at, raised);
            lemma_turn_end_appends(base, with_measurement(at, raised), "error"@, now);
            lemma_run_end_appends(base, with_measurement(at, raised), "error"@, event, now);
        },
        Some(EventKind::TypingError { .. }) => lemma_run_end_appends(
            base,
            state,
            "typing_error"@,
            event,
            now,
        ),
        Some(EventKind::DumpResult { state: dump }) => {
            let size = measurement(
                Instrument::SnapshotBytes,
                MetricValueView::I64(held_i64(dump@.len())),
                seq![attr("op"@, "dump"@)],
            );
            lemma_append(base, state, size);
            lemma_turn_end_appends(base, with_measurement(state, size), "ok"@, now);
        },
        Some(EventKind::Acknowledged) => lemma_turn_end_appends(base, at, "ok"@, now),
        _ => {},
    }
}

/// No message ever takes a recorded measurement back, and every measurement it
/// adds has a value its instrument can record: counters and gauges only ever
/// see integers that are not negative.
pub proof fn law_measurements_are_recordable(
    state: TurnState,
    request: Option<ParentRequest>,
    event: ChildEvent,
    now: nat,
)
    ensures
        appends_recordable(state.recorded, request_recorded(state, request, now).recorded),
        appends_recordable(state.recorded, event_recorded(state, event, now).recorded),
{
    lemma_request_appends(state, request, now);
    lemma_event_appends(state, event, now);
}

/// Whether a request answers a suspension.
pub open spec fn is_resume(request: Option<ParentRequest>) -> bool {
    request matches Some(request) && (request is ResumeCall || request is ResumeNameLookup
        || request is ResumeFutures)
}

/// A function name the host did not resolve reaches no measurement: whatever
/// shows no resolved function, two calls of different functions answered alike
/// record the same.
pub proof fn law_unresolved_names_are_not_recorded(
    state: TurnState,
    event: ChildEvent,
    other_event: ChildEvent,
    resume: Option<ParentRequest>,
    other_resume: Option<ParentRequest>,
    called: nat,
    answered: nat,
)
    requires
        event.kind is Some && event.kind->0 is FunctionCall,
        other_event.kind is Some && other_event.kind->0 is FunctionCall,
        event.total_execution_micros == other_event.total_execution_micros,
        is_resume(resume),
        is_resume(other_resume),
        answer_of(resume) == answer_of(other_resume),
        !resolved(answer_of(resume)),
    ensures
        request_recorded(event_recorded(state, event, called), resume, answered)
            == request_recorded(event_recorded(state, other_event, called), other_resume, answered),
{
}

/// Whether an event can be the reply to a load: an acknowledgement, or the
/// suspension the restored session is blocked on.
pub open spec fn answers_load(reply: ChildEvent) -> bool {
    reply.kind matches Some(kind) && (kind is Acknowledged || kind is FunctionCall || kind is OsCall
        || kind is NameLookup || kind is ResolveFutures)
}

/// Whether an event ends a run.
pub open spec fn ends_run(event: ChildEvent) -> bool {
    event.kind matches Some(kind) && (kind is Complete || kind is TypingError || kind is Error)
}

proof fn lemma_reply_rebases(
    state: TurnState,
    load: Option<ParentRequest>,
    reply: ChildEvent,
    asked: nat,
    replied: nat,
)
    requires
        load matches Some(ParentRequest::Load { .. }),
        answers_load(reply),
    ensures
        ({
            let loaded = event_recorded(request_recorded(state, load, asked), reply, replied);
            !loaded.loading && !dumping(loaded) && loaded.reported_micros
                == reply.total_execution_micros
        }),
{
}

proof fn lemma_run_keeps_the_clock(state: TurnState, next: Option<ParentRequest>, now: nat)
    requires
        is_resume(next) || next matches Some(ParentRequest::Feed(_)),
        !dumping(state),
    ensures
        ({
            let running = request_recorded(state, next, now);
            !running.loading && !dumping(running) && running.reported_micros
                == state.reported_micros
        }),
{
}

/// The position of the execution time among what the end of a run records.
spec fn execution_position(after: TurnState, end: ChildEvent) -> int {
    after.recorded.len() - if end.max_duration_micros matches Some(budget) && budget > 0 {
        2int
    } else {
        1
    }
}

proof fn lemma_run_end_records_the_delta(
    state: TurnState,
    outcome: Seq<char>,
    end: ChildEvent,
    now: nat,
)
    ensures
        ({
            let after = run_ended(state, outcome, end, now);
            let position = execution_position(after, end);
            &&& state.recorded.len() <= position < after.recorded.len()
            &&& after.recorded[position] == execution_measurement(
                execution_delta(state.reported_micros, end.total_execution_micros),
            )
            &&& forall|i: int|
                state.recorded.len() <= i < after.recorded.len() && i != position ==> (
                #[trigger] after.recorded[i]).instrument != Instrument::RunExecution
        }),
{
}

proof fn lemma_end_records_the_delta(state: TurnState, end: ChildEvent, now: nat)
    requires
        ends_run(end),
        !state.loading,
        !dumping(state),
    ensures
        ({
            let after = event_recorded(state, end, now);
            let position = execution_position(after, end);
            &&& state.recorded.len() <= position < after.recorded.len()
            &&& after.recorded[position] == execution_measurement(
                execution_delta(state.reported_micros, end.total_execution_micros),
            )
            &&& after.reported_micros >= end.total_execution_micros
            &&& after.reported_micros == end.total_execution_micros || after.reported_micros
                == state.reported_micros
            &&& forall|i: int|
                state.recorded.len() <= i < after.recorded.len() && i != position ==> (
                #[trigger] after.recorded[i]).instrument != Instrument::RunExecution
        }),
{
    match end.kind {
        Some(EventKind::Complete { .. }) => lemma_run_end_records_the_delta(
            state,
            "complete"@,
            end,
            now,
        ),
        Some(EventKind::TypingError { .. }) => lemma_run_end_records_the_delta(
            state,
            "typing_error"@,
            end,
            now,
        ),
        Some(EventKind::Error { exception }) => {
            let raised = with_measurement(
                state,
                measurement(
                    Instrument::Errors,
                    MetricValueView::I64(1),
                    seq![attr("exc_type"@, exception_label_text(known_class(exception)))],
                ),
            );
            lemma_run_end_records_the_delta(raised, "error"@, end, now);
            assert(raised.recorded.subrange(0, raised.recorded.len() as int) =~= raised.recorded);
            lemma_run_end_appends(raised.recorded, raised, "error"@, end, now);
            let after = event_recorded(state, end, now).recorded;
            assert(after[state.recorded.len() as int] == after.subrange(
                0,
                raised.recorded.len() as int,
            )[state.recorded.len() as int]);
        },
        _ => {},
    }
}

/// The clock of a restored session starts at the load's reply: after a reply at
/// `t0` microseconds, the run that ends at `t1` records `t1 - t0` as its
/// execution time, and nothing else.
pub proof fn law_load_rebases_the_clock(
    state: TurnState,
    load: Option<ParentRequest>,
    reply: ChildEvent,
    next: Option<ParentRequest>,
    end: ChildEvent,
    asked: nat,
    replied: nat,
    resumed: nat,
    ended: nat,
)
    requires
        load matches Some(ParentRequest::Load { .. }),
        answers_load(reply),
        is_resume(next) || next matches Some(ParentRequest::Feed(_)),
        ends_run(end),
        end.total_execution_micros >= reply.total_execution_micros,
    ensures
        ({
            let loaded = event_recorded(request_recorded(state, load, asked), reply, replied);
            let running = request_recorded(loaded, next, resumed);
            let after = event_recorded(running, end, ended);
            let taken = execution_measurement(
                (end.total_execution_micros - reply.total_execution_micros) as nat,
            );
            &&& after.reported_micros == end.total_execution_micros
            &&& exists|i: int|
                running.recorded.len() <= i < after.recorded.len() && #[trigger] after.recorded[i]
                    == taken
            &&& forall|i: int|
                running.recorded.len() <= i < after.recorded.len() && (
                #[trigger] after.recorded[i]).instrument == Instrument::RunExecution
                    ==> after.recorded[i] == taken
        }),
{
    let loaded = event_recorded(request_recorded(state, load, asked), reply, replied);
    let running = request_recorded(loaded, next, resumed);
    lemma_reply_rebases(state, load, reply, asked, replied);
    lemma_run_keeps_the_clock(loaded, next, resumed);
    lemma_end_records_the_delta(running, end, ended);
}

/// An exception reaches the measurements only as a class the interpreter
/// knows: two exceptions of unknown classes record the same.
pub proof fn law_exception_classes_are_bounded(
    state: TurnState,
    event: ChildEvent,
    other: ChildEvent,
    now: nat,
)
    requires
        event.kind matches Some(EventKind::Error { exception }) && known_class(exception) is None,
        other.kind matches Some(EventKind::Error { exception }) && known_class(exception) is None,
        event.total_execution_micros == other.total_execution_micros,
        event.max_duration_micros == other.max_duration_micros,
    ensures
        event_recorded(state, event, now) == event_recorded(state, other, now),
{
}

/// Execution time is recorded as a delta: over consecutive runs the recorded
/// times add up to how far the reported total has come, and the total never
/// goes back.
pub proof fn law_execution_time_adds_up(
    state: TurnState,
    outcome: Seq<char>,
    first: ChildEvent,
    second: ChildEvent,
    first_end: nat,
    second_end: nat,
)
    ensures
        ({
            let once = run_ended(state, outcome, first, first_end);
            let twice = run_ended(once, outcome, second, second_end);
            &&& state.reported_micros <= once.reported_micros <= twice.reported_micros
            &&& execution_delta(state.reported_micros, first.total_execution_micros)
                + execution_delta(once.reported_micros, second.total_execution_micros)
                == twice.reported_micros - state.reported_micros
        }),
{
}

/// A dump ends no run: whatever answers it, the feed stays in flight, blocked
/// on the same suspension, and only the dump itself ends.
pub proof fn law_dump_keeps_the_run(
    state: TurnState,
    dump: Option<ParentRequest>,
    event: ChildEvent,
    asked: nat,
    answered: nat,
)
    requires
        dump matches Some(ParentRequest::Dump),
        event.kind matches Some(kind) && (kind is DumpResult || kind is Error),
    ensures
        ({
            let after = event_recorded(request_recorded(state, dump, asked), event, answered);
            &&& after.feed == state.feed
            &&& after.pending == state.pending
            &&& after.turn is None
            &&& after.reported_micros == state.reported_micros
        }),
{
}

/// A suspension is counted when it is raised and its round-trip is recorded by
/// the answer, once: nothing is pending afterwards, and a further answer
/// records nothing.
pub proof fn law_round_trip_is_recorded_once(
    state: TurnState,
    event: ChildEvent,
    resume: Option<ParentRequest>,
    again: Option<ParentRequest>,
    raised: nat,
    answered: nat,
    late: nat,
)
    requires
        event.kind matches Some(kind) && (kind is FunctionCall || kind is OsCall
            || kind is NameLookup || kind is ResolveFutures),
        is_resume(resume),
        is_resume(again),
    ensures
        ({
            let suspended = event_recorded(state, event, raised);
            let resumed = request_recorded(suspended, resume, answered);
            &&& suspended.recorded.last().instrument == Instrument::Suspensions
            &&& resumed.recorded.len() > suspended.recorded.len()
            &&& suspended.pending matches Some((suspension, _)) && resumed.recorded.last()
                == round_trip(suspension, answer_of(resume), between(raised, answered))
            &&& resumed.pending is None
            &&& request_recorded(resumed, again, late) == resumed
        }),
{
}

/// How a resume answers the pending suspension.
pub open spec fn answer_of(resume: Option<ParentRequest>) -> Answer {
    match resume {
        Some(ParentRequest::ResumeCall { result, .. }) => ext_answer(result),
        Some(ParentRequest::ResumeNameLookup { kind }) => name_answer(kind),
        _ => Answer::Resolved,
    }
}

/// An operating system call is measured under the name its span carries.
pub proof fn law_os_call_names_match_the_spans(call: OsCall, event: ChildEvent)
    requires
        call.call is Some,
    ensures
        os_call_view(call, event).attributes[0] == attr("function"@, os_call_name(call.call)),
{
}

} // verus!
