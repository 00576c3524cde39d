//! Aggregate metrics for pool health and turn latency: is the fleet saturated,
//! how often do workers die, how much of its duration budget does a run use.
//!
//! Measurements are queued in the order they are taken; the host's metrics SDK
//! owns the instruments and the aggregation.
//!
//! **Attribute cardinality is a hard constraint.** Sandboxed code chooses
//! function names and exception classes, and one time series per value would
//! take a metrics backend down, so only closed sets reach attributes.

use crate::instruments::{
    instrument_description, instrument_kind, instrument_name, instrument_unit, Instrument,
    MetricKind,
};
use crate::record::{attrs_view, put, AttrValue, AttrView, Attribute};
use crate::time::Duration;
use vstd::prelude::*;

verus! {

/// A measured value: integral for counts and byte sizes, exact for durations
/// and ratios.
#[derive(Debug, Clone, Copy, PartialEq, Eq, Structural)]
pub enum MetricValue {
    /// An integral count.
    I64(i64),
    /// A duration, measured in seconds.
    Seconds(Duration),
    /// The share of `budget` that `used` is.
    Ratio { used: u64, budget: u64 },
}

/// A measured value as numbers, durations in nanoseconds.
pub enum MetricValueView {
    I64(int),
    Seconds(nat),
    Ratio { used: nat, budget: nat },
}

impl View for MetricValue {
    type V = MetricValueView;

    open spec fn view(&self) -> MetricValueView {
        match *self {
            MetricValue::I64(value) => MetricValueView::I64(value as int),
            MetricValue::Seconds(duration) => MetricValueView::Seconds(duration@),
            MetricValue::Ratio { used, budget } => MetricValueView::Ratio {
                used: used as nat,
                budget: budget as nat,
            },
        }
    }
}

/// A size held at what an `i64` can represent.
pub open spec fn held_i64(size: nat) -> int {
    if size <= i64::MAX {
        size as int
    } else {
        i64::MAX as int
    }
}

impl MetricValue {
    /// A duration in seconds.
    pub fn seconds(duration: Duration) -> (value: MetricValue)
        ensures
            value@ == MetricValueView::Seconds(duration@),
    {
        MetricValue::Seconds(duration)
    }

    /// A size, saturating rather than wrapping on absurd ones.
    pub fn bytes(len: usize) -> (value: MetricValue)
        ensures
            value@ == MetricValueView::I64(held_i64(len as nat)),
    {
        match i64::try_from(len) {
            Ok(len) => MetricValue::I64(len),
            Err(_) => MetricValue::I64(i64::MAX),
        }
    }

    /// The value as a gauge observation. Only histograms record durations and
    /// ratios, so a gauge always observes an integer.
    pub fn as_i64(self) -> (value: i64)
        requires
            self is I64,
        ensures
            value == self->I64_0,
    {
        match self {
            MetricValue::I64(value) => value,
            _ => 0,
        }
    }

    /// The value as a counter increment; a negative one counts as none.
    pub fn as_u64(self) -> (value: u64)
        requires
            self is I64,
        ensures
            value == (if self->I64_0 < 0 {
                0
            } else {
                self->I64_0 as int
            }),
    {
        match self {
            MetricValue::I64(value) => match u64::try_from(value) {
                Ok(value) => value,
                Err(_) => 0,
            },
            _ => 0,
        }
    }
}

/// One measurement, with everything the host needs to create the instrument
/// it belongs to.
#[derive(Debug)]
pub struct Measurement {
    /// Which kind of instrument records this measurement.
    pub kind: MetricKind,
    /// Dotted instrument name, e.g. `monty.pool.checkout.wait`.
    pub name: &'static str,
    /// UCUM unit: `s`, `By`, `1`, or a `{thing}` annotation for counts.
    pub unit: &'static str,
    /// One-line description of what the instrument measures.
    pub description: &'static str,
    /// The measured value.
    pub value: MetricValue,
    /// Dimensions to record it under.
    pub attributes: Vec<Attribute>,
    /// The instrument itself.
    pub instrument: Instrument,
}

/// A measurement as numbers and text.
pub struct MeasurementView {
    pub kind: MetricKind,
    pub name: Seq<char>,
    pub unit: Seq<char>,
    pub description: Seq<char>,
    pub value: MetricValueView,
    pub attributes: Seq<(Seq<char>, AttrView)>,
    pub instrument: Instrument,
}

impl View for Measurement {
    type V = MeasurementView;

    open spec fn view(&self) -> MeasurementView {
        MeasurementView {
            kind: self.kind,
            name: self.name@,
            unit: self.unit@,
            description: self.description@,
            value: self.value@,
            attributes: attrs_view(self.attributes@),
            instrument: self.instrument,
        }
    }
}

/// The measurement of `value` by `instrument` under `attributes`.
pub open spec fn measurement(
    instrument: Instrument,
    value: MetricValueView,
    attributes: Seq<(Seq<char>, AttrView)>,
) -> MeasurementView {
    MeasurementView {
        kind: instrument_kind(instrument),
        name: instrument_name(instrument),
        unit: instrument_unit(instrument),
        description: instrument_description(instrument),
        value,
        attributes,
        instrument,
    }
}

/// One text attribute.
pub open spec fn attr(key: Seq<char>, value: Seq<char>) -> (Seq<char>, AttrView) {
    (key, AttrView::Text(value))
}

pub(crate) fn attributes_1(key: &'static str, value: &str) -> (attributes: Vec<Attribute>)
    ensures
        attrs_view(attributes@) == seq![attr(key@, value@)],
{
    let mut attributes: Vec<Attribute> = Vec::new();
    put(&mut attributes, key, AttrValue::text(value));
    assert(attrs_view(attributes@) =~= seq![attr(key@, value@)]);
    attributes
}

pub(crate) fn attributes_2(
    key: &'static str,
    value: &str,
    other_key: &'static str,
    other: &str,
) -> (attributes: Vec<Attribute>)
    ensures
        attrs_view(attributes@) == seq![attr(key@, value@), attr(other_key@, other@)],
{
    let mut attributes: Vec<Attribute> = Vec::new();
    put(&mut attributes, key, AttrValue::text(value));
    put(&mut attributes, other_key, AttrValue::text(other));
    assert(attrs_view(attributes@) =~= seq![attr(key@, value@), attr(other_key@, other@)]);
    attributes
}

/// The `outcome` attribute for an operation that either worked or did not.
pub fn outcome(ok: bool) -> (text: &'static str)
    ensures
        text@ == (if ok {
            "ok"@
        } else {
            "error"@
        }),
{
    if ok {
        "ok"
    } else {
        "error"
    }
}

/// Measurements on their way to the host's metrics SDK, oldest first.
#[derive(Debug)]
pub struct Metrics {
    recorded: Vec<Measurement>,
}

impl View for Metrics {
    type V = Seq<MeasurementView>;

    closed spec fn view(&self) -> Seq<MeasurementView> {
        self.recorded@.map_values(|measurement: Measurement| measurement@)
    }
}

/// The measurement of a live worker count.
pub open spec fn workers_measurement(state: Seq<char>, count: nat) -> MeasurementView {
    measurement(
        Instrument::Workers,
        MetricValueView::I64(held_i64(count)),
        seq![attr("state"@, state)],
    )
}

/// The measurements of the live worker counts, by what the workers do.
pub open spec fn worker_measurements(idle: nat, busy: nat) -> Seq<MeasurementView> {
    seq![workers_measurement("idle"@, idle), workers_measurement("busy"@, busy)]
}

/// The measurement of a wait for a worker.
pub open spec fn wait_measurement(elapsed: nat, outcome: Seq<char>) -> MeasurementView {
    measurement(
        Instrument::CheckoutWait,
        MetricValueView::Seconds(elapsed),
        seq![attr("outcome"@, outcome)],
    )
}

/// The measurement of adding a worker.
pub open spec fn spawn_measurement(
    elapsed: nat,
    transport: Seq<char>,
    outcome: Seq<char>,
) -> MeasurementView {
    measurement(
        Instrument::SpawnDuration,
        MetricValueView::Seconds(elapsed),
        seq![attr("transport"@, transport), attr("outcome"@, outcome)],
    )
}

/// The measurement of a worker leaving.
pub open spec fn termination_measurement(reason: Seq<char>) -> MeasurementView {
    measurement(
        Instrument::WorkerTerminated,
        MetricValueView::I64(1),
        seq![attr("reason"@, reason)],
    )
}

/// The measurement of a checkout's lifetime.
pub open spec fn session_measurement(elapsed: nat, outcome: Seq<char>) -> MeasurementView {
    measurement(
        Instrument::SessionDuration,
        MetricValueView::Seconds(elapsed),
        seq![attr("outcome"@, outcome)],
    )
}

/// The measurement of a frame that reached the wire.
pub open spec fn frame_measurement(direction: Seq<char>, len: nat) -> MeasurementView {
    measurement(
        Instrument::FrameBytes,
        MetricValueView::I64(held_i64(len)),
        seq![attr("direction"@, direction)],
    )
}

impl Metrics {
    /// No measurements yet.
    pub fn new() -> (metrics: Metrics)
        ensures
            metrics@ == Seq::<MeasurementView>::empty(),
    {
        let recorded: Vec<Measurement> = Vec::new();
        assert(recorded@.map_values(|measurement: Measurement| measurement@) =~= Seq::<
            MeasurementView,
        >::empty());
        Metrics { recorded }
    }

    /// Hands over every queued measurement, oldest first.
    pub fn take(&mut self) -> (measurements: Vec<Measurement>)
        ensures
            measurements@.map_values(|measurement: Measurement| measurement@) == old(self)@,
            final(self)@ == Seq::<MeasurementView>::empty(),
    {
        let mut taken: Vec<Measurement> = Vec::new();
        std::mem::swap(&mut taken, &mut self.recorded);
        assert(self@ =~= Seq::<MeasurementView>::empty());
        taken
    }

    /// Queues one measurement.
    pub fn record(
        &mut self,
        instrument: Instrument,
        value: MetricValue,
        attributes: Vec<Attribute>,
    )
        ensures
            final(self)@ == old(self)@.push(
                measurement(instrument, value@, attrs_view(attributes@)),
            ),
    {
        self.recorded.push(
            Measurement {
                kind: instrument.kind(),
                name: instrument.name(),
                unit: instrument.unit(),
                description: instrument.description(),
                value,
                attributes,
                instrument,
            },
        );
        assert(self@ =~= old(self)@.push(measurement(instrument, value@, attrs_view(attributes@))));
    }

    /// Live worker counts, re-stated after every change to the pool's state. A
    /// gauge rather than an up/down counter, so a missed observation is
    /// corrected by the next one.
    pub fn workers(&mut self, idle: usize, busy: usize)
        ensures
            final(self)@ == old(self)@ + worker_measurements(idle as nat, busy as nat),
    {
        self.record(Instrument::Workers, MetricValue::bytes(idle), attributes_1("state", "idle"));
        self.record(Instrument::Workers, MetricValue::bytes(busy), attributes_1("state", "busy"));
        assert(self@ =~= old(self)@ + worker_measurements(idle as nat, busy as nat));
    }

    /// Time a checkout spent obtaining a worker.
    pub fn checkout_wait(&mut self, elapsed: Duration, outcome: &'static str)
        ensures
            final(self)@ == old(self)@.push(
                wait_measurement(elapsed@, outcome@),
            ),
    {
        self.record(
            Instrument::CheckoutWait,
            MetricValue::seconds(elapsed),
            attributes_1("outcome", outcome),
        );
    }

    /// Cost of spawning a subprocess worker or dialing a remote one.
    pub fn worker_spawn(
        &mut self,
        elapsed: Duration,
        transport: &'static str,
        outcome: &'static str,
    )
        ensures
            final(self)@ == old(self)@.push(
                spawn_measurement(elapsed@, transport@, outcome@),
            ),
    {
        self.record(
            Instrument::SpawnDuration,
            MetricValue::seconds(elapsed),
            attributes_2("transport", transport, "outcome", outcome),
        );
    }

    /// One worker leaving the pool, by why it left.
    pub fn worker_terminated(&mut self, reason: &'static str)
        ensures
            final(self)@ == old(self)@.push(
                termination_measurement(reason@),
            ),
    {
        self.record(
            Instrument::WorkerTerminated,
            MetricValue::I64(1),
            attributes_1("reason", reason),
        );
    }

    /// Lifetime of one checkout.
    pub fn session_duration(&mut self, elapsed: Duration, outcome: &'static str)
        ensures
            final(self)@ == old(self)@.push(
                session_measurement(elapsed@, outcome@),
            ),
    {
        self.record(
            Instrument::SessionDuration,
            MetricValue::seconds(elapsed),
            attributes_1("outcome", outcome),
        );
    }
}

/// A measurement carries what was measured and under which dimensions, and
/// describes the instrument that took it: two measurements of one instrument
/// differ at most in their value and dimensions, and those stay apart.
pub proof fn law_measurement_carries_its_value(
    instrument: Instrument,
    value: MetricValueView,
    attributes: Seq<(Seq<char>, AttrView)>,
)
    ensures
        ({
            let taken = measurement(instrument, value, attributes);
            &&& taken.instrument == instrument
            &&& taken.value == value
            &&& taken.attributes == attributes
            &&& taken.name == instrument_name(taken.instrument)
            &&& taken.unit == instrument_unit(taken.instrument)
            &&& taken.kind == instrument_kind(taken.instrument)
            &&& taken.description == instrument_description(taken.instrument)
        }),
{
}

/// A size is recorded as it is as long as the backend can hold it, and as the
/// largest it can hold beyond that: a larger size is never recorded as a smaller
/// one.
pub proof fn law_sizes_are_recorded_in_order(small: nat, large: nat)
    requires
        small <= large,
    ensures
        0 <= held_i64(small) <= held_i64(large) <= 0x7fff_ffff_ffff_ffff,
        small <= 0x7fff_ffff_ffff_ffff ==> held_i64(small) == small,
        small > 0x7fff_ffff_ffff_ffff ==> held_i64(small) == 0x7fff_ffff_ffff_ffff,
{
}

/// The idle and the busy workers are each counted once, under what they do, and
/// in this order.
pub proof fn law_worker_counts_name_their_state(idle: nat, busy: nat)
    requires
        idle <= i64::MAX,
        busy <= i64::MAX,
    ensures
        ({
            let taken = worker_measurements(idle, busy);
            &&& taken.len() == 2
            &&& taken[0].instrument == Instrument::Workers
            &&& taken[0].value == MetricValueView::I64(idle as int)
            &&& taken[0].attributes == seq![("state"@, AttrView::Text("idle"@))]
            &&& taken[1].instrument == Instrument::Workers
            &&& taken[1].value == MetricValueView::I64(busy as int)
            &&& taken[1].attributes == seq![("state"@, AttrView::Text("busy"@))]
        }),
{
}

/// A wait, a spawn and a session are measured by how long they took and how they
/// came out, a spawn also by how the worker is reached; a worker that leaves
/// counts one, under why it left; a frame counts its bytes, under its direction.
pub proof fn law_pool_measurements_carry_their_arguments(
    elapsed: nat,
    transport: Seq<char>,
    outcome: Seq<char>,
    reason: Seq<char>,
    direction: Seq<char>,
    len: nat,
)
    requires
        len <= i64::MAX,
    ensures
        ({
            let waited = wait_measurement(elapsed, outcome);
            let spawned = spawn_measurement(elapsed, transport, outcome);
            let left = termination_measurement(reason);
            let lived = session_measurement(elapsed, outcome);
            let sent = frame_measurement(direction, len);
            let took = MetricValueView::Seconds(elapsed);
            let came_out = ("outcome"@, AttrView::Text(outcome));
            &&& waited.instrument == Instrument::CheckoutWait && waited.value == took
            &&& waited.attributes == seq![came_out]
            &&& spawned.instrument == Instrument::SpawnDuration && spawned.value == took
            &&& spawned.attributes == seq![("transport"@, AttrView::Text(transport)), came_out]
            &&& left.instrument == Instrument::WorkerTerminated
            &&& left.value == MetricValueView::I64(1)
            &&& left.attributes == seq![("reason"@, AttrView::Text(reason))]
            &&& lived.instrument == Instrument::SessionDuration && lived.value == took
            &&& lived.attributes == seq![came_out]
            &&& sent.instrument == Instrument::FrameBytes
            &&& sent.value == MetricValueView::I64(len as int)
            &&& sent.attributes == seq![("direction"@, AttrView::Text(direction))]
        }),
{
}

} // verus!
