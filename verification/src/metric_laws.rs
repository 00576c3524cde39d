//! What the measurements of a worker's conversation amount to, over whole
//! exchanges: a run from its feed to its end, a housekeeping turn from request
//! to reply, a suspension from call to answer.

use crate::instruments::Instrument;
use crate::metrics::{measurement, MeasurementView, MetricValueView};
use crate::protocol::{
    call_name_text, Call, ChildEvent, EventKind, ExtResult, NameLookupResult, ParentRequest,
    PrintStream, WireValue,
};
use crate::record::AttrView;
use crate::turn_metrics::{
    answer_name, event_recorded, exception_label_text, ext_answer, known_class, name_answer,
    rebased, request_recorded, resolved, round_trip, run_ended, turn_ended, with_measurement,
    Answer, SuspensionView, TurnKind, TurnState,
};
use vstd::prelude::*;
use vstd::utf8::encode_utf8;

verus! {

/// Whether `after` is `before` with something appended.
pub open spec fn extends(before: Seq<MeasurementView>, after: Seq<MeasurementView>) -> bool {
    &&& before.len() <= after.len()
    &&& forall|i: int| 0 <= i < before.len() ==> #[trigger] after[i] == before[i]
}

/// Whether nothing of `instrument` was appended.
pub open spec fn none_added(
    before: Seq<MeasurementView>,
    after: Seq<MeasurementView>,
    instrument: Instrument,
) -> bool {
    &&& extends(before, after)
    &&& forall|i: int|
        before.len() <= i < after.len() ==> (#[trigger] after[i]).instrument != instrument
}

/// Whether exactly one measurement of an instrument was appended, this one.
pub open spec fn one_added(
    before: Seq<MeasurementView>,
    after: Seq<MeasurementView>,
    taken: MeasurementView,
) -> bool {
    &&& extends(before, after)
    &&& exists|i: int|
        before.len() <= i < after.len() && #[trigger] after[i] == taken && forall|j: int|
            before.len() <= j < after.len() && j != i ==> (#[trigger] after[j]).instrument
                != taken.instrument
}

/// One message of a conversation, and when it went by.
pub enum Step {
    Request(Option<ParentRequest>, nat),
    Event(ChildEvent, nat),
}

/// The metrics after one more message.
pub open spec fn stepped(state: TurnState, step: Step) -> TurnState {
    match step {
        Step::Request(request, now) => request_recorded(state, request, now),
        Step::Event(event, now) => event_recorded(state, event, now),
    }
}

/// The metrics after a conversation.
pub open spec fn played(state: TurnState, steps: Seq<Step>) -> TurnState
    decreases steps.len(),
{
    if steps.len() == 0 {
        state
    } else {
        stepped(played(state, steps.drop_last()), steps.last())
    }
}

/// Whether a message belongs to a run in flight: output, a suspension, or the
/// answer to one.
pub open spec fn in_flight(step: Step) -> bool {
    match step {
        Step::Request(request, _) => request matches Some(request) && (request is ResumeCall
            || request is ResumeNameLookup || request is ResumeFutures),
        Step::Event(event, _) => event.kind matches Some(kind) && (kind is Print
            || kind is FunctionCall || kind is OsCall || kind is NameLookup
            || kind is ResolveFutures),
    }
}

/// Whether every message belongs to a run in flight.
pub open spec fn all_in_flight(steps: Seq<Step>) -> bool {
    forall|i: int| 0 <= i < steps.len() ==> in_flight(#[trigger] steps[i])
}

/// How a run came out.
pub open spec fn run_outcome(end: ChildEvent) -> Option<Seq<char>> {
    match end.kind {
        Some(EventKind::Complete { .. }) => Some("complete"@),
        Some(EventKind::Error { .. }) => Some("error"@),
        Some(EventKind::TypingError { .. }) => Some("typing_error"@),
        _ => None,
    }
}

/// Whether no dump is in flight.
pub open spec fn no_dump(state: TurnState) -> bool {
    !(state.turn matches Some((TurnKind::Dump, _)))
}

/// Whether an instrument measures runs or housekeeping turns.
spec fn of_a_turn(instrument: Instrument) -> bool {
    instrument == Instrument::RunExecution || instrument == Instrument::RunDuration || instrument
        == Instrument::RunBudget || instrument == Instrument::TurnDuration
}

proof fn lemma_step_in_flight(state: TurnState, step: Step, instrument: Instrument)
    requires
        in_flight(step),
        of_a_turn(instrument),
        !state.loading,
    ensures
        ({
            let after = stepped(state, step);
            &&& !after.loading
            &&& after.reported_micros == state.reported_micros
            &&& after.feed == state.feed
            &&& after.turn == state.turn
            &&& none_added(state.recorded, after.recorded, instrument)
        }),
{
    match step {
        Step::Request(request, now) => {},
        Step::Event(event, now) => {},
    }
}

proof fn lemma_played_in_flight(state: TurnState, steps: Seq<Step>, instrument: Instrument)
    requires
        all_in_flight(steps),
        of_a_turn(instrument),
        !state.loading,
    ensures
        ({
            let after = played(state, steps);
            &&& !after.loading
            &&& after.reported_micros == state.reported_micros
            &&& after.feed == state.feed
            &&& after.turn == state.turn
            &&& none_added(state.recorded, after.recorded, instrument)
        }),
    decreases steps.len(),
{
    if steps.len() > 0 {
        let before = steps.drop_last();
        assert forall|i: int| 0 <= i < before.len() implies in_flight(#[trigger] before[i]) by {
            assert(before[i] == steps[i]);
        }
        lemma_played_in_flight(state, before, instrument);
        assert(in_flight(steps[steps.len() - 1]));
        lemma_step_in_flight(played(state, before), steps.last(), instrument);
    }
}

/// What an event that ends a run records, whatever the run was.
#[verifier::rlimit(40)]
proof fn lemma_run_end(state: TurnState, end: ChildEvent, now: nat)
    requires
        run_outcome(end) is Some,
        !state.loading,
        no_dump(state),
    ensures
        ({
            let after = event_recorded(state, end, now);
            let total = end.total_execution_micros;
            let used: nat = if total > state.reported_micros {
                (total - state.reported_micros) as nat
            } else {
                0
            };
            &&& after.reported_micros == (if total > state.reported_micros {
                total
            } else {
                state.reported_micros
            })
            &&& after.feed is None && after.pending is None && after.turn is None
            &&& one_added(
                state.recorded,
                after.recorded,
                measurement(
                    Instrument::RunExecution,
                    MetricValueView::Seconds(used * 1000),
                    Seq::empty(),
                ),
            )
            &&& state.feed is Some && state.feed->0 <= now ==> one_added(
                state.recorded,
                after.recorded,
                measurement(
                    Instrument::RunDuration,
                    MetricValueView::Seconds((now - state.feed->0) as nat),
                    seq![("outcome"@, AttrView::Text(run_outcome(end)->0))],
                ),
            )
            &&& state.feed is None ==> none_added(
                state.recorded,
                after.recorded,
                Instrument::RunDuration,
            )
            &&& end.max_duration_micros is Some && end.max_duration_micros->0 > 0 ==> one_added(
                state.recorded,
                after.recorded,
                measurement(
                    Instrument::RunBudget,
                    MetricValueView::Ratio {
                        used: total as nat,
                        budget: end.max_duration_micros->0 as nat,
                    },
                    Seq::empty(),
                ),
            )
            &&& (end.max_duration_micros is None || end.max_duration_micros->0 == 0) ==> none_added(
                state.recorded,
                after.recorded,
                Instrument::RunBudget,
            )
        }),
{
    let after = event_recorded(state, end, now).recorded;
    let first = state.recorded.len() as int;
    let errors = if end.kind matches Some(EventKind::Error { .. }) {
        1int
    } else {
        0
    };
    let turns = if state.turn is Some {
        1int
    } else {
        0
    };
    let feeds = if state.feed is Some {
        1int
    } else {
        0
    };
    assert(after[first + errors + turns + feeds].instrument == Instrument::RunExecution);
    if state.feed is Some {
        assert(after[first + errors + turns].instrument == Instrument::RunDuration);
    }
    if let Some(budget) = end.max_duration_micros {
        if budget > 0 {
            assert(after[first + errors + turns + feeds + 1].instrument == Instrument::RunBudget);
        }
    }
}

proof fn lemma_none_then_one(
    before: Seq<MeasurementView>,
    middle: Seq<MeasurementView>,
    after: Seq<MeasurementView>,
    taken: MeasurementView,
)
    requires
        none_added(before, middle, taken.instrument),
        one_added(middle, after, taken),
    ensures
        one_added(before, after, taken),
{
    let i = choose|i: int|
        middle.len() <= i < after.len() && #[trigger] after[i] == taken && forall|j: int|
            middle.len() <= j < after.len() && j != i ==> (#[trigger] after[j]).instrument
                != taken.instrument;
    assert forall|j: int| 0 <= j < before.len() implies #[trigger] after[j] == before[j] by {
        assert(middle[j] == before[j]);
    }
    assert forall|j: int| before.len() <= j < after.len() && j != i implies (
    #[trigger] after[j]).instrument != taken.instrument by {
        if j < middle.len() {
            assert(after[j] == middle[j]);
        }
    }
    assert(after[i] == taken);
}

proof fn lemma_none_then_none(
    before: Seq<MeasurementView>,
    middle: Seq<MeasurementView>,
    after: Seq<MeasurementView>,
    instrument: Instrument,
)
    requires
        none_added(before, middle, instrument),
        none_added(middle, after, instrument),
    ensures
        none_added(before, after, instrument),
{
    assert forall|j: int| 0 <= j < before.len() implies #[trigger] after[j] == before[j] by {
        assert(middle[j] == before[j]);
    }
    assert forall|j: int| before.len() <= j < after.len() implies (#[trigger] after[j]).instrument
        != instrument by {
        if j < middle.len() {
            assert(after[j] == middle[j]);
        }
    }
}

/// A run is measured once, from its feed to the event that ends it, whatever
/// happened in between: its wall time is the time between the two, its execution
/// time is how far the session's total has come since it was last reported, and
/// its share of the budget is the session's total over the budget.
pub proof fn law_run_is_measured(
    state: TurnState,
    feed: Option<ParentRequest>,
    steps: Seq<Step>,
    end: ChildEvent,
    begun: nat,
    ended: nat,
)
    requires
        feed matches Some(ParentRequest::Feed(_)),
        all_in_flight(steps),
        run_outcome(end) is Some,
        no_dump(state),
        begun <= ended,
    ensures
        ({
            let after = event_recorded(
                played(request_recorded(state, feed, begun), steps),
                end,
                ended,
            );
            let total = end.total_execution_micros;
            &&& one_added(
                state.recorded,
                after.recorded,
                measurement(
                    Instrument::RunDuration,
                    MetricValueView::Seconds((ended - begun) as nat),
                    seq![("outcome"@, AttrView::Text(run_outcome(end)->0))],
                ),
            )
            &&& one_added(
                state.recorded,
                after.recorded,
                measurement(
                    Instrument::RunExecution,
                    MetricValueView::Seconds(
                        if total > state.reported_micros {
                            ((total - state.reported_micros) * 1000) as nat
                        } else {
                            0
                        },
                    ),
                    Seq::empty(),
                ),
            )
            &&& end.max_duration_micros is Some && end.max_duration_micros->0 > 0 ==> one_added(
                state.recorded,
                after.recorded,
                measurement(
                    Instrument::RunBudget,
                    MetricValueView::Ratio {
                        used: total as nat,
                        budget: end.max_duration_micros->0 as nat,
                    },
                    Seq::empty(),
                ),
            )
            &&& (end.max_duration_micros is None || end.max_duration_micros->0 == 0) ==> none_added(
                state.recorded,
                after.recorded,
                Instrument::RunBudget,
            )
            &&& after.feed is None && after.pending is None && after.turn is None
            &&& after.reported_micros == (if total > state.reported_micros {
                total
            } else {
                state.reported_micros
            })
        }),
{
    let fed = request_recorded(state, feed, begun);
    let running = played(fed, steps);
    let after = event_recorded(running, end, ended);
    let total = end.total_execution_micros;
    assert(fed.recorded == state.recorded);
    lemma_played_in_flight(fed, steps, Instrument::RunExecution);
    lemma_played_in_flight(fed, steps, Instrument::RunDuration);
    lemma_played_in_flight(fed, steps, Instrument::RunBudget);
    lemma_run_end(running, end, ended);
    let used: nat = if total > state.reported_micros {
        (total - state.reported_micros) as nat
    } else {
        0
    };
    lemma_none_then_one(
        state.recorded,
        running.recorded,
        after.recorded,
        measurement(Instrument::RunExecution, MetricValueView::Seconds(used * 1000), Seq::empty()),
    );
    lemma_none_then_one(
        state.recorded,
        running.recorded,
        after.recorded,
        measurement(
            Instrument::RunDuration,
            MetricValueView::Seconds((ended - begun) as nat),
            seq![("outcome"@, AttrView::Text(run_outcome(end)->0))],
        ),
    );
    match end.max_duration_micros {
        Some(budget) => if budget > 0 {
            lemma_none_then_one(
                state.recorded,
                running.recorded,
                after.recorded,
                measurement(
                    Instrument::RunBudget,
                    MetricValueView::Ratio { used: total as nat, budget: budget as nat },
                    Seq::empty(),
                ),
            );
        } else {
            lemma_none_then_none(
                state.recorded,
                running.recorded,
                after.recorded,
                Instrument::RunBudget,
            );
        },
        None => lemma_none_then_none(
            state.recorded,
            running.recorded,
            after.recorded,
            Instrument::RunBudget,
        ),
    }
}

/// A new session's clock starts over: whatever was reported before it was
/// configured, its first run is charged exactly what the session has executed.
pub proof fn law_new_session_restarts_the_clock(
    state: TurnState,
    configure: Option<ParentRequest>,
    reply: ChildEvent,
    feed: Option<ParentRequest>,
    steps: Seq<Step>,
    end: ChildEvent,
    moments: (nat, nat, nat, nat),
)
    requires
        configure matches Some(ParentRequest::Configure(_)),
        reply.kind matches Some(EventKind::Acknowledged),
        feed matches Some(ParentRequest::Feed(_)),
        all_in_flight(steps),
        run_outcome(end) is Some,
        moments.2 <= moments.3,
    ensures
        ({
            let ready = event_recorded(
                request_recorded(state, configure, moments.0),
                reply,
                moments.1,
            );
            let after = event_recorded(
                played(request_recorded(ready, feed, moments.2), steps),
                end,
                moments.3,
            );
            &&& one_added(
                state.recorded,
                after.recorded,
                measurement(
                    Instrument::RunExecution,
                    MetricValueView::Seconds((end.total_execution_micros * 1000) as nat),
                    Seq::empty(),
                ),
            )
            &&& one_added(
                state.recorded,
                after.recorded,
                measurement(
                    Instrument::RunDuration,
                    MetricValueView::Seconds((moments.3 - moments.2) as nat),
                    seq![("outcome"@, AttrView::Text(run_outcome(end)->0))],
                ),
            )
            &&& after.reported_micros == end.total_execution_micros
        }),
{
    let ready = event_recorded(request_recorded(state, configure, moments.0), reply, moments.1);
    assert(none_added(state.recorded, ready.recorded, Instrument::RunExecution));
    assert(none_added(state.recorded, ready.recorded, Instrument::RunDuration));
    law_run_is_measured(ready, feed, steps, end, moments.2, moments.3);
    let after = event_recorded(
        played(request_recorded(ready, feed, moments.2), steps),
        end,
        moments.3,
    );
    assert(ready.reported_micros == 0);
    lemma_none_then_one(
        state.recorded,
        ready.recorded,
        after.recorded,
        measurement(
            Instrument::RunExecution,
            MetricValueView::Seconds((end.total_execution_micros * 1000) as nat),
            Seq::empty(),
        ),
    );
    lemma_none_then_one(
        state.recorded,
        ready.recorded,
        after.recorded,
        measurement(
            Instrument::RunDuration,
            MetricValueView::Seconds((moments.3 - moments.2) as nat),
            seq![("outcome"@, AttrView::Text(run_outcome(end)->0))],
        ),
    );
}

/// A restored session is charged from where it stands: whatever was reported
/// before the load, and whatever it had executed when it was dumped, a run after
/// the load is charged the time since the reply to the load.
pub proof fn law_restored_session_is_charged_from_its_reply(
    state: TurnState,
    load: Option<ParentRequest>,
    reply: ChildEvent,
    feed: Option<ParentRequest>,
    steps: Seq<Step>,
    end: ChildEvent,
    moments: (nat, nat, nat, nat),
)
    requires
        load matches Some(ParentRequest::Load { .. }),
        reply.kind matches Some(EventKind::Acknowledged),
        feed matches Some(ParentRequest::Feed(_)),
        all_in_flight(steps),
        run_outcome(end) is Some,
        moments.2 <= moments.3,
        reply.total_execution_micros <= end.total_execution_micros,
    ensures
        ({
            let ready = event_recorded(request_recorded(state, load, moments.0), reply, moments.1);
            let after = event_recorded(
                played(request_recorded(ready, feed, moments.2), steps),
                end,
                moments.3,
            );
            &&& one_added(
                state.recorded,
                after.recorded,
                measurement(
                    Instrument::RunExecution,
                    MetricValueView::Seconds(
                        ((end.total_execution_micros - reply.total_execution_micros) * 1000) as nat,
                    ),
                    Seq::empty(),
                ),
            )
            &&& after.reported_micros == end.total_execution_micros
        }),
{
    let ready = event_recorded(request_recorded(state, load, moments.0), reply, moments.1);
    assert(none_added(state.recorded, ready.recorded, Instrument::RunExecution));
    law_run_is_measured(ready, feed, steps, end, moments.2, moments.3);
    let after = event_recorded(
        played(request_recorded(ready, feed, moments.2), steps),
        end,
        moments.3,
    );
    assert(ready.reported_micros == reply.total_execution_micros);
    lemma_none_then_one(
        state.recorded,
        ready.recorded,
        after.recorded,
        measurement(
            Instrument::RunExecution,
            MetricValueView::Seconds(
                ((end.total_execution_micros - reply.total_execution_micros) * 1000) as nat,
            ),
            Seq::empty(),
        ),
    );
}

/// The label of a housekeeping request; `None` for any other.
pub open spec fn housekeeping(request: Option<ParentRequest>) -> Option<Seq<char>> {
    match request {
        Some(ParentRequest::Configure(_)) => Some("configure"@),
        Some(ParentRequest::Load { .. }) => Some("load"@),
        Some(ParentRequest::Dump) => Some("dump"@),
        Some(ParentRequest::InstallDependencies { .. }) => Some("install_dependencies"@),
        Some(ParentRequest::Reset) => Some("reset"@),
        _ => None,
    }
}

/// How a housekeeping turn came out, by the event that answers it.
pub open spec fn turn_outcome(reply: ChildEvent) -> Option<Seq<char>> {
    match reply.kind {
        Some(EventKind::Acknowledged) => Some("ok"@),
        Some(EventKind::DumpResult { .. }) => Some("ok"@),
        _ => run_outcome(reply),
    }
}

/// The label of a housekeeping turn.
pub open spec fn turn_label(turn: TurnKind) -> Seq<char> {
    match turn {
        TurnKind::Configure => "configure"@,
        TurnKind::Load => "load"@,
        TurnKind::Dump => "dump"@,
        TurnKind::InstallDependencies => "install_dependencies"@,
        TurnKind::Reset => "reset"@,
    }
}

/// A housekeeping turn that is open when a run ends, or when a bare reply comes,
/// ends there and is measured once, from when it began; every other event leaves
/// it open. Where none is open, none is measured.
pub proof fn law_open_turn_ends_with_its_reply(state: TurnState, event: ChildEvent, now: nat)
    requires
        state.turn matches Some((_, begun)) ==> begun <= now,
    ensures
        ({
            let after = event_recorded(state, event, now);
            match (state.turn, turn_outcome(event)) {
                (Some((turn, begun)), Some(outcome)) => one_added(
                    state.recorded,
                    after.recorded,
                    measurement(
                        Instrument::TurnDuration,
                        MetricValueView::Seconds((now - begun) as nat),
                        seq![
                            ("turn"@, AttrView::Text(turn_label(turn))),
                            ("outcome"@, AttrView::Text(outcome)),
                        ],
                    ),
                ) && after.turn is None,
                _ => none_added(state.recorded, after.recorded, Instrument::TurnDuration)
                    && after.turn == state.turn,
            }
        }),
{
    match event.kind {
        Some(EventKind::Complete { .. }) => lemma_run_end_closes_the_turn(
            state,
            "complete"@,
            event,
            now,
        ),
        Some(EventKind::TypingError { .. }) => lemma_run_end_closes_the_turn(
            state,
            "typing_error"@,
            event,
            now,
        ),
        Some(EventKind::Error { .. }) => lemma_error_closes_the_turn(state, event, now),
        Some(EventKind::DumpResult { .. }) => lemma_bare_reply_closes_the_turn(state, event, now),
        Some(EventKind::Acknowledged) => lemma_bare_reply_closes_the_turn(state, event, now),
        _ => lemma_other_events_keep_the_turn(state, event, now),
    }
}

/// Whether an open turn was closed and measured with this outcome.
spec fn turn_closed(before: TurnState, after: TurnState, outcome: Seq<char>, now: nat) -> bool {
    &&& after.turn is None
    &&& match before.turn {
        Some((turn, begun)) => one_added(
            before.recorded,
            after.recorded,
            turn_measured(turn, outcome, (now - begun) as nat),
        ),
        None => none_added(before.recorded, after.recorded, Instrument::TurnDuration),
    }
}

proof fn lemma_error_closes_the_turn(state: TurnState, event: ChildEvent, now: nat)
    requires
        event.kind is Some && event.kind->0 is Error,
        state.turn matches Some((_, begun)) ==> begun <= now,
    ensures
        turn_closed(state, event_recorded(state, event, now), "error"@, now),
{
    let counted = error_counted(state, event);
    let after = event_recorded(state, event, now);
    assert(none_added(state.recorded, counted.recorded, Instrument::TurnDuration));
    if no_dump(state) {
        assert(after == run_ended(counted, "error"@, event, now));
        lemma_run_end_closes_the_turn(counted, "error"@, event, now);
    } else {
        assert(after == turn_ended(counted, "error"@, now));
        lemma_turn_end_is_measured(counted, "error"@, now);
    }
    match state.turn {
        Some((turn, begun)) => lemma_none_then_one(
            state.recorded,
            counted.recorded,
            after.recorded,
            turn_measured(turn, "error"@, (now - begun) as nat),
        ),
        None => lemma_none_then_none(
            state.recorded,
            counted.recorded,
            after.recorded,
            Instrument::TurnDuration,
        ),
    }
}

proof fn lemma_turn_end_is_measured(state: TurnState, outcome: Seq<char>, now: nat)
    requires
        state.turn matches Some((_, begun)) ==> begun <= now,
    ensures
        turn_closed(state, turn_ended(state, outcome, now), outcome, now),
{
    if let Some((turn, begun)) = state.turn {
        let after = turn_ended(state, outcome, now).recorded;
        assert(after[state.recorded.len() as int] == turn_measured(
            turn,
            outcome,
            (now - begun) as nat,
        ));
    }
}

proof fn lemma_bare_reply_closes_the_turn(state: TurnState, event: ChildEvent, now: nat)
    requires
        event.kind is Some && (event.kind->0 is DumpResult || event.kind->0 is Acknowledged),
        state.turn matches Some((_, begun)) ==> begun <= now,
    ensures
        turn_closed(state, event_recorded(state, event, now), "ok"@, now),
{
    let after = event_recorded(state, event, now).recorded;
    let first = state.recorded.len() as int;
    if let Some((turn, begun)) = state.turn {
        let at = if event.kind->0 is DumpResult {
            first + 1
        } else {
            first
        };
        assert(after[at] == turn_measured(turn, "ok"@, (now - begun) as nat));
    }
}

proof fn lemma_other_events_keep_the_turn(state: TurnState, event: ChildEvent, now: nat)
    requires
        turn_outcome(event) is None,
    ensures
        event_recorded(state, event, now).turn == state.turn,
        none_added(
            state.recorded,
            event_recorded(state, event, now).recorded,
            Instrument::TurnDuration,
        ),
{
}

/// The measurement of a housekeeping turn.
spec fn turn_measured(turn: TurnKind, outcome: Seq<char>, took: nat) -> MeasurementView {
    measurement(
        Instrument::TurnDuration,
        MetricValueView::Seconds(took),
        seq![
            ("turn"@, AttrView::Text(turn_label(turn))),
            ("outcome"@, AttrView::Text(outcome)),
        ],
    )
}

/// The metrics with an error counted, and a load it answers settled.
spec fn error_counted(state: TurnState, event: ChildEvent) -> TurnState {
    with_measurement(
        rebased(state, event),
        measurement(
            Instrument::Errors,
            MetricValueView::I64(1),
            seq![
                (
                    "exc_type"@,
                    AttrView::Text(exception_label_text(known_class(event.kind->0->exception))),
                ),
            ],
        ),
    )
}

proof fn lemma_run_end_closes_the_turn(
    state: TurnState,
    outcome: Seq<char>,
    event: ChildEvent,
    now: nat,
)
    requires
        state.turn matches Some((_, begun)) ==> begun <= now,
    ensures
        turn_closed(state, run_ended(state, outcome, event, now), outcome, now),
{
    let after = run_ended(state, outcome, event, now).recorded;
    if let Some((turn, begun)) = state.turn {
        assert(after[state.recorded.len() as int] == turn_measured(
            turn,
            outcome,
            (now - begun) as nat,
        ));
    }
}

/// A housekeeping turn is measured once, from its request to the event that
/// answers it, whatever answers it; the sizes of a dump and the class of an error
/// are counted beside it. Loading, dumping and installing leave the run in flight
/// alone, and a failed dump does too.
pub proof fn law_housekeeping_turn_is_measured(
    state: TurnState,
    request: Option<ParentRequest>,
    reply: ChildEvent,
    sent: nat,
    answered: nat,
)
    requires
        housekeeping(request) is Some,
        turn_outcome(reply) is Some,
        sent <= answered,
    ensures
        ({
            let asked = request_recorded(state, request, sent);
            let after = event_recorded(asked, reply, answered);
            let ends_a_run = run_outcome(reply) is Some && !(reply.kind is Some
                && reply.kind->0 is Error && request->0 is Dump);
            &&& asked.recorded == state.recorded
            &&& one_added(
                state.recorded,
                after.recorded,
                measurement(
                    Instrument::TurnDuration,
                    MetricValueView::Seconds((answered - sent) as nat),
                    seq![
                        ("turn"@, AttrView::Text(housekeeping(request)->0)),
                        ("outcome"@, AttrView::Text(turn_outcome(reply)->0)),
                    ],
                ),
            )
            &&& after.turn is None
            &&& (request->0 is Configure || request->0 is Reset) ==> asked.feed is None
                && asked.pending is None
            &&& !(request->0 is Configure || request->0 is Reset) ==> asked.feed == state.feed
                && asked.pending == state.pending
            &&& request->0 is Dump || request->0 is InstallDependencies || request->0 is Reset
                ==> asked.reported_micros == state.reported_micros
            &&& request->0 is Configure || request->0 is Load ==> asked.reported_micros == 0
            &&& !ends_a_run && !(request->0 is Load) ==> after.reported_micros
                == asked.reported_micros
            &&& !ends_a_run ==> {
                &&& after.feed == asked.feed
                &&& after.pending == asked.pending
                &&& none_added(state.recorded, after.recorded, Instrument::RunDuration)
                &&& none_added(state.recorded, after.recorded, Instrument::RunExecution)
                &&& none_added(state.recorded, after.recorded, Instrument::RunBudget)
            }
        }),
{
    let asked = request_recorded(state, request, sent);
    law_open_turn_ends_with_its_reply(asked, reply, answered);
    assert(asked.turn is Some && housekeeping(request) is Some);
    if !(run_outcome(reply) is Some && !(reply.kind->0 is Error && request->0 is Dump)) {
        lemma_bare_reply_keeps_the_run(asked, reply, answered);
    }
}

/// A reply that ends no run leaves the run alone.
proof fn lemma_bare_reply_keeps_the_run(asked: TurnState, reply: ChildEvent, answered: nat)
    requires
        turn_outcome(reply) is Some,
        run_outcome(reply) is Some ==> reply.kind->0 is Error && !no_dump(asked),
    ensures
        ({
            let after = event_recorded(asked, reply, answered);
            &&& after.feed == asked.feed
            &&& after.pending == asked.pending
            &&& none_added(asked.recorded, after.recorded, Instrument::RunDuration)
            &&& none_added(asked.recorded, after.recorded, Instrument::RunExecution)
            &&& none_added(asked.recorded, after.recorded, Instrument::RunBudget)
            &&& !asked.loading ==> after.reported_micros == asked.reported_micros
        }),
{
}

/// After a session was configured or reset, or the worker was told to stop,
/// nothing of the run before is measured any more: no answer, and no wall time.
pub proof fn law_session_boundary_drops_the_run(
    state: TurnState,
    boundary: Option<ParentRequest>,
    resume: Option<ParentRequest>,
    end: ChildEvent,
    sent: nat,
    later: nat,
)
    requires
        boundary matches Some(ParentRequest::Configure(_)) || boundary matches Some(
            ParentRequest::Reset,
        ) || boundary matches Some(ParentRequest::Shutdown),
        resume_label(resume) is Some,
        run_outcome(end) is Some,
    ensures
        ({
            let cleared = request_recorded(state, boundary, sent);
            &&& cleared.recorded == state.recorded
            &&& request_recorded(cleared, resume, later).recorded == state.recorded
            &&& none_added(
                state.recorded,
                event_recorded(cleared, end, later).recorded,
                Instrument::RunDuration,
            )
            &&& boundary matches Some(ParentRequest::Shutdown) ==> none_added(
                state.recorded,
                event_recorded(cleared, end, later).recorded,
                Instrument::TurnDuration,
            )
        }),
{
}

/// The label of the host's answer; `None` for a request that answers nothing.
pub open spec fn resume_label(resume: Option<ParentRequest>) -> Option<Seq<char>> {
    match resume {
        Some(ParentRequest::ResumeCall { result: Some(ExtResult::ReturnValue(_)), .. }) => Some(
            "value"@,
        ),
        Some(ParentRequest::ResumeCall { result: Some(ExtResult::Error(_)), .. }) => Some("error"@),
        Some(ParentRequest::ResumeCall { result: Some(ExtResult::Future(_)), .. }) => Some(
            "future"@,
        ),
        Some(ParentRequest::ResumeCall { result: Some(ExtResult::NotFound(_)), .. }) => Some(
            "not_found"@,
        ),
        Some(ParentRequest::ResumeCall { result: Some(ExtResult::NotHandled), .. }) => Some(
            "not_handled"@,
        ),
        Some(ParentRequest::ResumeCall { result: None, .. }) => Some("missing"@),
        Some(ParentRequest::ResumeNameLookup { kind: Some(NameLookupResult::Value(_)) }) => Some(
            "value"@,
        ),
        Some(ParentRequest::ResumeNameLookup { kind: Some(NameLookupResult::Undefined) }) => Some(
            "undefined"@,
        ),
        Some(ParentRequest::ResumeNameLookup { kind: None }) => Some("missing"@),
        Some(ParentRequest::ResumeFutures { .. }) => Some("resolved"@),
        _ => None,
    }
}

/// Whether the host's answer shows that the called function exists.
pub open spec fn shows_function(resume: Option<ParentRequest>) -> bool {
    match resume {
        Some(ParentRequest::ResumeCall { result: Some(ExtResult::ReturnValue(_)), .. }) => true,
        Some(ParentRequest::ResumeCall { result: Some(ExtResult::Error(_)), .. }) => true,
        Some(ParentRequest::ResumeCall { result: Some(ExtResult::Future(_)), .. }) => true,
        Some(ParentRequest::ResumeNameLookup { kind: Some(NameLookupResult::Value(_)) }) => true,
        _ => false,
    }
}

/// The label of what the sandbox is blocked on; `None` for any other event.
pub open spec fn waits_on(call: ChildEvent) -> Option<Seq<char>> {
    match call.kind {
        Some(EventKind::FunctionCall(_)) => Some("function"@),
        Some(EventKind::OsCall(_)) => Some("os"@),
        Some(EventKind::NameLookup { .. }) => Some("name_lookup"@),
        Some(EventKind::ResolveFutures { .. }) => Some("futures"@),
        _ => None,
    }
}

/// The measurement of an answered suspension.
pub open spec fn answer_measured(
    call: ChildEvent,
    resume: Option<ParentRequest>,
    waited: nat,
) -> MeasurementView {
    let outcome = ("outcome"@, AttrView::Text(resume_label(resume)->0));
    let kind = ("kind"@, AttrView::Text(waits_on(call)->0));
    match call.kind {
        Some(EventKind::OsCall(call)) => measurement(
            Instrument::OsCall,
            MetricValueView::Seconds(waited),
            seq![
                (
                    "function"@,
                    AttrView::Text(
                        match call.call {
                            Some(call) => call_name_text(call),
                            None => "unknown"@,
                        },
                    ),
                ),
                outcome,
            ],
        ),
        Some(EventKind::FunctionCall(call)) => measurement(
            Instrument::HostCall,
            MetricValueView::Seconds(waited),
            if shows_function(resume) {
                seq![kind, outcome, ("function"@, AttrView::Text(call.function_name@))]
            } else {
                seq![kind, outcome]
            },
        ),
        _ => measurement(
            Instrument::HostCall,
            MetricValueView::Seconds(waited),
            seq![kind, outcome],
        ),
    }
}

/// The bytes that cross a mount for a call and its answer, with their direction:
/// what is written travels with the call, what is read with the answer.
pub open spec fn bytes_moved(
    call: ChildEvent,
    resume: Option<ParentRequest>,
) -> Option<(Seq<char>, nat)> {
    match call.kind {
        Some(EventKind::OsCall(call)) => match call.call {
            Some(Call::WriteText(write)) | Some(Call::AppendText(write)) => Some(
                ("write"@, encode_utf8(write.data@).len()),
            ),
            Some(Call::WriteBytes(write)) | Some(Call::AppendBytes(write)) => Some(
                ("write"@, write.data.data@.len()),
            ),
            Some(Call::ReadText(_)) | Some(Call::ReadBytes(_)) => match resume {
                Some(
                    ParentRequest::ResumeCall {
                        result: Some(ExtResult::ReturnValue(WireValue::Text(text))),
                        ..
                    },
                ) => Some(("read"@, encode_utf8(text@).len())),
                Some(
                    ParentRequest::ResumeCall {
                        result: Some(ExtResult::ReturnValue(WireValue::Bytes(bytes))),
                        ..
                    },
                ) => Some(("read"@, bytes.data@.len())),
                _ => None,
            },
            _ => None,
        },
        _ => None,
    }
}

/// A suspension is counted once and its answer timed once, from the event that
/// blocked the sandbox to the request that answers it; bytes that cross a mount
/// are counted once, in the direction they go. A second answer measures nothing.
pub proof fn law_suspension_is_measured(
    state: TurnState,
    call: ChildEvent,
    resume: Option<ParentRequest>,
    again: Option<ParentRequest>,
    asked: nat,
    answered: nat,
)
    requires
        waits_on(call) is Some,
        resume_label(resume) is Some,
        resume_label(again) is Some,
        asked <= answered,
    ensures
        ({
            let after = request_recorded(event_recorded(state, call, asked), resume, answered);
            &&& one_added(
                state.recorded,
                after.recorded,
                measurement(
                    Instrument::Suspensions,
                    MetricValueView::I64(1),
                    seq![("kind"@, AttrView::Text(waits_on(call)->0))],
                ),
            )
            &&& one_added(
                state.recorded,
                after.recorded,
                answer_measured(call, resume, (answered - asked) as nat),
            )
            &&& none_added(
                state.recorded,
                after.recorded,
                if call.kind->0 is OsCall {
                    Instrument::HostCall
                } else {
                    Instrument::OsCall
                },
            )
            &&& match bytes_moved(call, resume) {
                Some((direction, len)) => one_added(
                    state.recorded,
                    after.recorded,
                    measurement(
                        Instrument::OsIo,
                        MetricValueView::I64(
                            if len > i64::MAX {
                                i64::MAX as int
                            } else {
                                len as int
                            },
                        ),
                        seq![("direction"@, AttrView::Text(direction))],
                    ),
                ),
                None => none_added(state.recorded, after.recorded, Instrument::OsIo),
            }
            &&& after.feed == state.feed && after.turn == state.turn
            &&& request_recorded(after, again, answered).recorded == after.recorded
        }),
{
    let waited = (answered - asked) as nat;
    let blocked = event_recorded(state, call, asked);
    let after = request_recorded(blocked, resume, answered);
    lemma_suspension_records(state, call, resume, asked, answered);
    lemma_answer_is_timed(call, resume, waited);
    lemma_parts_are_counted(
        state.recorded,
        wrote(call),
        suspension_counted(call),
        read(call, resume),
        answer_measured(call, resume, waited),
    );
    match again {
        Some(ParentRequest::ResumeCall { .. }) => {},
        Some(ParentRequest::ResumeNameLookup { .. }) => {},
        _ => {},
    }
}

proof fn lemma_answer_is_timed(call: ChildEvent, resume: Option<ParentRequest>, waited: nat)
    requires
        waits_on(call) is Some,
    ensures
        answer_measured(call, resume, waited).instrument == (if call.kind->0 is OsCall {
            Instrument::OsCall
        } else {
            Instrument::HostCall
        }),
        !(call.kind->0 is OsCall) ==> bytes_moved(call, resume) is None && bytes_moved(call, None)
            is None,
        bytes_moved(call, None) is Some ==> bytes_moved(call, resume) == bytes_moved(call, None),
{
}

/// What two measurements with at most one crossing beside them add up to.
proof fn lemma_parts_are_counted(
    before: Seq<MeasurementView>,
    written: Seq<MeasurementView>,
    suspension: MeasurementView,
    read: Seq<MeasurementView>,
    answer: MeasurementView,
)
    requires
        written.len() + read.len() <= 1,
        forall|i: int|
            0 <= i < written.len() ==> (#[trigger] written[i]).instrument == Instrument::OsIo,
        forall|i: int| 0 <= i < read.len() ==> (#[trigger] read[i]).instrument == Instrument::OsIo,
        suspension.instrument == Instrument::Suspensions,
        answer.instrument == Instrument::OsCall || answer.instrument == Instrument::HostCall,
    ensures
        ({
            let after = before + written + seq![suspension] + read + seq![answer];
            &&& one_added(before, after, suspension)
            &&& one_added(before, after, answer)
            &&& written.len() == 1 ==> one_added(before, after, written[0])
            &&& read.len() == 1 ==> one_added(before, after, read[0])
            &&& written.len() + read.len() == 0 ==> none_added(before, after, Instrument::OsIo)
            &&& forall|instrument: Instrument|
                instrument != Instrument::OsIo && instrument != suspension.instrument && instrument
                    != answer.instrument ==> #[trigger] none_added(before, after, instrument)
        }),
{
    let after = before + written + seq![suspension] + read + seq![answer];
    let first = before.len() as int;
    let counted = first + written.len();
    let last = after.len() - 1;
    assert(last == counted + 1 + read.len());
    assert forall|i: int| 0 <= i < first implies #[trigger] after[i] == before[i] by {}
    assert(extends(before, after));
    assert(after[counted] == suspension);
    assert(after[last] == answer);
    if written.len() == 1 {
        assert(after[first] == written[0]);
        lemma_one_of_its_kind(before, after, written[0], first);
    }
    if read.len() == 1 {
        assert(after[first + 1] == read[0]);
        lemma_one_of_its_kind(before, after, read[0], first + 1);
    }
    lemma_one_of_its_kind(before, after, suspension, counted);
    lemma_one_of_its_kind(before, after, answer, last);
    assert forall|instrument: Instrument|
        instrument != Instrument::OsIo && instrument != suspension.instrument && instrument
            != answer.instrument implies #[trigger] none_added(before, after, instrument) by {}
}

proof fn lemma_one_of_its_kind(
    before: Seq<MeasurementView>,
    after: Seq<MeasurementView>,
    taken: MeasurementView,
    at: int,
)
    requires
        extends(before, after),
        before.len() <= at < after.len(),
        after[at] == taken,
        forall|j: int|
            before.len() <= j < after.len() && j != at ==> (#[trigger] after[j]).instrument
                != taken.instrument,
    ensures
        one_added(before, after, taken),
{
}

/// The measurement of bytes crossing a mount.
spec fn crossing(direction: Seq<char>, len: nat) -> MeasurementView {
    measurement(
        Instrument::OsIo,
        MetricValueView::I64(
            if len > i64::MAX {
                i64::MAX as int
            } else {
                len as int
            },
        ),
        seq![("direction"@, AttrView::Text(direction))],
    )
}

/// The measurement of one suspension.
spec fn suspension_counted(call: ChildEvent) -> MeasurementView {
    measurement(
        Instrument::Suspensions,
        MetricValueView::I64(1),
        seq![("kind"@, AttrView::Text(waits_on(call)->0))],
    )
}

/// What a call that writes records of its payload.
spec fn wrote(call: ChildEvent) -> Seq<MeasurementView> {
    match bytes_moved(call, None) {
        Some((direction, len)) => seq![crossing(direction, len)],
        None => Seq::empty(),
    }
}

/// What the answer to a call that reads records of the value.
spec fn read(call: ChildEvent, resume: Option<ParentRequest>) -> Seq<MeasurementView> {
    match bytes_moved(call, None) {
        Some(_) => Seq::empty(),
        None => match bytes_moved(call, resume) {
            Some((direction, len)) => seq![crossing(direction, len)],
            None => Seq::empty(),
        },
    }
}

proof fn lemma_suspension_records(
    state: TurnState,
    call: ChildEvent,
    resume: Option<ParentRequest>,
    asked: nat,
    answered: nat,
)
    requires
        waits_on(call) is Some,
        resume_label(resume) is Some,
        asked <= answered,
    ensures
        ({
            let after = request_recorded(event_recorded(state, call, asked), resume, answered);
            &&& after.pending is None
            &&& after.feed == state.feed && after.turn == state.turn
            &&& after.recorded == state.recorded + wrote(call) + seq![suspension_counted(call)]
                + read(call, resume) + seq![
                answer_measured(call, resume, (answered - asked) as nat),
            ]
        }),
{
    let waited = (answered - asked) as nat;
    let blocked = event_recorded(state, call, asked);
    lemma_call_records(state, call, asked);
    lemma_answer_records(blocked, call, resume, asked, answered);
    assert(request_recorded(blocked, resume, answered).recorded =~= state.recorded + wrote(call)
        + seq![suspension_counted(call)] + read(call, resume) + seq![
        answer_measured(call, resume, waited),
    ]);
}

/// What is remembered of the event that blocks the sandbox.
spec fn remembered(call: ChildEvent) -> SuspensionView {
    match call.kind {
        Some(EventKind::FunctionCall(call)) => SuspensionView::Function {
            name: call.function_name@,
        },
        Some(EventKind::OsCall(call)) => SuspensionView::Os {
            function: match call.call {
                Some(call) => call_name_text(call),
                None => "unknown"@,
            },
            reads: call.call matches Some(c) && (c is ReadText || c is ReadBytes),
        },
        Some(EventKind::NameLookup { .. }) => SuspensionView::NameLookup,
        _ => SuspensionView::Futures,
    }
}

proof fn lemma_call_records(state: TurnState, call: ChildEvent, asked: nat)
    requires
        waits_on(call) is Some,
    ensures
        ({
            let blocked = event_recorded(state, call, asked);
            &&& blocked.pending == Some((remembered(call), asked))
            &&& blocked.feed == state.feed && blocked.turn == state.turn
            &&& blocked.recorded == state.recorded + wrote(call) + seq![suspension_counted(call)]
        }),
{
    let blocked = event_recorded(state, call, asked);
    assert(blocked.recorded =~= state.recorded + wrote(call) + seq![suspension_counted(call)]);
}

proof fn lemma_answer_records(
    blocked: TurnState,
    call: ChildEvent,
    resume: Option<ParentRequest>,
    asked: nat,
    answered: nat,
)
    requires
        waits_on(call) is Some,
        resume_label(resume) is Some,
        asked <= answered,
        blocked.pending == Some((remembered(call), asked)),
    ensures
        ({
            let after = request_recorded(blocked, resume, answered);
            &&& after.pending is None
            &&& after.feed == blocked.feed && after.turn == blocked.turn
            &&& after.recorded == blocked.recorded + read(call, resume) + seq![
                answer_measured(call, resume, (answered - asked) as nat),
            ]
        }),
{
    let waited = (answered - asked) as nat;
    let after = request_recorded(blocked, resume, answered);
    let kind = ("kind"@, AttrView::Text(waits_on(call)->0));
    let outcome = ("outcome"@, AttrView::Text(resume_label(resume)->0));
    match call.kind {
        Some(EventKind::FunctionCall(function)) => {
            let name = ("function"@, AttrView::Text(function.function_name@));
            assert(seq![kind, outcome].push(name) =~= seq![kind, outcome, name]);
        },
        _ => {},
    }
    let answer = match resume {
        Some(ParentRequest::ResumeCall { result, .. }) => ext_answer(result),
        Some(ParentRequest::ResumeNameLookup { kind }) => name_answer(kind),
        _ => Answer::Resolved,
    };
    assert(answer_name(answer) == resume_label(resume)->0);
    assert(resolved(answer) == shows_function(resume));
    assert(after.recorded.last() == round_trip(remembered(call), answer, waited));
    assert(round_trip(remembered(call), answer, waited).attributes =~= answer_measured(
        call,
        resume,
        waited,
    ).attributes);
    assert(round_trip(remembered(call), answer, waited) == answer_measured(call, resume, waited));
    assert(after.recorded =~= blocked.recorded + read(call, resume) + seq![
        answer_measured(call, resume, waited),
    ]);
}

/// A count held at what an `i64` can hold.
pub open spec fn counted(len: nat) -> MetricValueView {
    MetricValueView::I64(
        if len > i64::MAX {
            i64::MAX as int
        } else {
            len as int
        },
    )
}

/// Output, dumps and errors are each counted once, by what the event says, and
/// by no other event: output by its bytes in UTF-8 and its stream, a dump by its
/// bytes, an error by the interpreter's name for its class.
pub proof fn law_events_are_counted_by_what_they_say(state: TurnState, event: ChildEvent, now: nat)
    ensures
        ({
            let before = state.recorded;
            let after = event_recorded(state, event, now).recorded;
            &&& match event.kind {
                Some(EventKind::Print { text, stream }) => after == before.push(
                    measurement(
                        Instrument::PrintBytes,
                        counted(encode_utf8(text@).len()),
                        seq![
                            (
                                "stream"@,
                                AttrView::Text(
                                    if stream == Some(PrintStream::Stdout) {
                                        "stdout"@
                                    } else if stream == Some(PrintStream::Stderr) {
                                        "stderr"@
                                    } else {
                                        "unspecified"@
                                    },
                                ),
                            ),
                        ],
                    ),
                ),
                _ => none_added(before, after, Instrument::PrintBytes),
            }
            &&& match event.kind {
                Some(EventKind::DumpResult { state: dump }) => one_added(
                    before,
                    after,
                    measurement(
                        Instrument::SnapshotBytes,
                        counted(dump@.len()),
                        seq![("op"@, AttrView::Text("dump"@))],
                    ),
                ),
                _ => none_added(before, after, Instrument::SnapshotBytes),
            }
            &&& match event.kind {
                Some(EventKind::Error { exception }) => one_added(
                    before,
                    after,
                    measurement(
                        Instrument::Errors,
                        MetricValueView::I64(1),
                        seq![
                            (
                                "exc_type"@,
                                AttrView::Text(
                                    if exception is Some && exception->0.known is Some {
                                        (exception->0.known->0)@
                                    } else {
                                        "other"@
                                    },
                                ),
                            ),
                        ],
                    ),
                ),
                _ => none_added(before, after, Instrument::Errors),
            }
        }),
{
    let after = event_recorded(state, event, now).recorded;
    let first = state.recorded.len() as int;
    match event.kind {
        Some(EventKind::Error { .. }) => {
            lemma_end_counts(state, event, now);
            assert(after[first].instrument == Instrument::Errors);
        },
        Some(EventKind::Complete { .. }) => lemma_end_counts(state, event, now),
        Some(EventKind::TypingError { .. }) => lemma_end_counts(state, event, now),
        Some(EventKind::DumpResult { .. }) => {
            assert(after[first].instrument == Instrument::SnapshotBytes);
        },
        Some(EventKind::Print { .. }) => {},
        Some(EventKind::OsCall(_)) => {},
        _ => {},
    }
}

#[verifier::rlimit(40)]
proof fn lemma_end_counts(state: TurnState, event: ChildEvent, now: nat)
    requires
        run_outcome(event) is Some,
    ensures
        ({
            let before = state.recorded;
            let after = event_recorded(state, event, now).recorded;
            &&& none_added(before, after, Instrument::PrintBytes)
            &&& none_added(before, after, Instrument::SnapshotBytes)
            &&& event.kind->0 is Error ==> none_added(
                before.push(
                    measurement(
                        Instrument::Errors,
                        MetricValueView::I64(1),
                        seq![
                            (
                                "exc_type"@,
                                AttrView::Text(
                                    if event.kind->0->exception is Some
                                        && event.kind->0->exception->0.known is Some {
                                        (event.kind->0->exception->0.known->0)@
                                    } else {
                                        "other"@
                                    },
                                ),
                            ),
                        ],
                    ),
                ),
                after,
                Instrument::Errors,
            )
            &&& !(event.kind->0 is Error) ==> none_added(before, after, Instrument::Errors)
        }),
{
}

/// A message that neither begins, ends, blocks, answers nor prints measures
/// nothing and leaves the metrics as they are.
pub proof fn law_other_messages_measure_nothing(state: TurnState, event: ChildEvent, now: nat)
    requires
        event.kind is None || event.kind->0 is FatalError || event.kind->0 is Shutdown,
    ensures
        event_recorded(state, event, now) == state,
        request_recorded(state, None, now) == state,
{
}

/// A session that was restored in the middle of a run is charged for the rest of
/// that run from the reply to the load, which can be the suspension it is blocked
/// on; with no feed of its own here it has no wall time.
pub proof fn law_restored_run_is_charged_from_its_reply(
    state: TurnState,
    load: Option<ParentRequest>,
    reply: ChildEvent,
    steps: Seq<Step>,
    end: ChildEvent,
    moments: (nat, nat, nat),
)
    requires
        load matches Some(ParentRequest::Load { .. }),
        reply.kind matches Some(EventKind::Acknowledged) || waits_on(reply) is Some,
        all_in_flight(steps),
        run_outcome(end) is Some,
        reply.total_execution_micros <= end.total_execution_micros,
    ensures
        ({
            let ready = event_recorded(request_recorded(state, load, moments.0), reply, moments.1);
            let after = event_recorded(played(ready, steps), end, moments.2);
            &&& one_added(
                state.recorded,
                after.recorded,
                measurement(
                    Instrument::RunExecution,
                    MetricValueView::Seconds(
                        ((end.total_execution_micros - reply.total_execution_micros) * 1000) as nat,
                    ),
                    Seq::empty(),
                ),
            )
            &&& state.feed is None ==> none_added(
                state.recorded,
                after.recorded,
                Instrument::RunDuration,
            )
            &&& after.reported_micros == end.total_execution_micros
        }),
{
    let ready = event_recorded(request_recorded(state, load, moments.0), reply, moments.1);
    let running = played(ready, steps);
    let after = event_recorded(running, end, moments.2);
    assert(none_added(state.recorded, ready.recorded, Instrument::RunExecution));
    assert(none_added(state.recorded, ready.recorded, Instrument::RunDuration));
    assert(ready.reported_micros == reply.total_execution_micros);
    lemma_played_in_flight(ready, steps, Instrument::RunExecution);
    lemma_played_in_flight(ready, steps, Instrument::RunDuration);
    lemma_run_end(running, end, moments.2);
    let taken = measurement(
        Instrument::RunExecution,
        MetricValueView::Seconds(
            ((end.total_execution_micros - reply.total_execution_micros) * 1000) as nat,
        ),
        Seq::empty(),
    );
    lemma_none_then_one(ready.recorded, running.recorded, after.recorded, taken);
    lemma_none_then_one(state.recorded, ready.recorded, after.recorded, taken);
    if state.feed is None {
        lemma_none_then_none(
            ready.recorded,
            running.recorded,
            after.recorded,
            Instrument::RunDuration,
        );
        lemma_none_then_none(
            state.recorded,
            ready.recorded,
            after.recorded,
            Instrument::RunDuration,
        );
    }
}

/// A run that ends before a load was ever answered is charged all that its session
/// reports: what was reported before the load plays no part.
pub proof fn law_load_forgets_what_was_reported(
    state: TurnState,
    load: Option<ParentRequest>,
    end: ChildEvent,
    sent: nat,
    ended: nat,
)
    requires
        load matches Some(ParentRequest::Load { .. }),
        end.kind is Some && (end.kind->0 is Complete || end.kind->0 is TypingError),
    ensures
        one_added(
            state.recorded,
            event_recorded(request_recorded(state, load, sent), end, ended).recorded,
            measurement(
                Instrument::RunExecution,
                MetricValueView::Seconds((end.total_execution_micros * 1000) as nat),
                Seq::empty(),
            ),
        ),
{
    let loading = request_recorded(state, load, sent);
    let quiet = TurnState { loading: false, ..loading };
    assert(event_recorded(loading, end, ended) == event_recorded(quiet, end, ended));
    lemma_run_end(quiet, end, ended);
}

/// A new feed gives up what the one before was blocked on: an answer that comes
/// late measures nothing.
pub proof fn law_new_feed_drops_the_suspension(
    state: TurnState,
    feed: Option<ParentRequest>,
    resume: Option<ParentRequest>,
    sent: nat,
    later: nat,
)
    requires
        feed matches Some(ParentRequest::Feed(_)),
        resume_label(resume) is Some,
    ensures
        request_recorded(state, feed, sent).recorded == state.recorded,
        request_recorded(request_recorded(state, feed, sent), resume, later).recorded
            == state.recorded,
{
}

} // verus!
