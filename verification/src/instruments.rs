//! The instruments a pool measures itself with.

use vstd::prelude::*;
use vstd::string::*;

verus! {

/// The kind of instrument a measurement belongs to.
#[derive(Debug, Clone, Copy, PartialEq, Eq, Structural)]
pub enum MetricKind {
    /// Monotonic sum: the value is an increment.
    Counter,
    /// Last-value-wins observation: the value is the current absolute state.
    Gauge,
    /// Distribution: the value is one sample.
    Histogram,
}

/// One instrument: the constant half of every measurement it records.
#[derive(Debug, Clone, Copy, PartialEq, Eq, Structural)]
pub enum Instrument {
    /// Live workers, by whether they are serving a checkout.
    Workers,
    /// Time spent waiting for a worker to check out.
    CheckoutWait,
    /// Cost of adding a worker to the pool.
    SpawnDuration,
    /// Workers leaving the pool, by why.
    WorkerTerminated,
    /// Checkout lifetime.
    SessionDuration,
    /// Wall time of one execution turn.
    RunDuration,
    /// Sandbox time of one execution turn.
    RunExecution,
    /// Share of the session's duration budget consumed.
    RunBudget,
    /// Wall time of one housekeeping turn.
    TurnDuration,
    /// Suspensions the sandbox raised.
    Suspensions,
    /// Host round-trip time.
    HostCall,
    /// Mount round-trip time.
    OsCall,
    /// Bytes crossing a mount.
    OsIo,
    /// Exceptions that ended a feed.
    Errors,
    /// Session dump size.
    SnapshotBytes,
    /// Sandbox output volume.
    PrintBytes,
    /// Protocol frame size.
    FrameBytes,
}

/// The kind of an instrument.
pub open spec fn instrument_kind(instrument: Instrument) -> MetricKind {
    match instrument {
        Instrument::Workers => MetricKind::Gauge,
        Instrument::CheckoutWait => MetricKind::Histogram,
        Instrument::SpawnDuration => MetricKind::Histogram,
        Instrument::WorkerTerminated => MetricKind::Counter,
        Instrument::SessionDuration => MetricKind::Histogram,
        Instrument::RunDuration => MetricKind::Histogram,
        Instrument::RunExecution => MetricKind::Histogram,
        Instrument::RunBudget => MetricKind::Histogram,
        Instrument::TurnDuration => MetricKind::Histogram,
        Instrument::Suspensions => MetricKind::Counter,
        Instrument::HostCall => MetricKind::Histogram,
        Instrument::OsCall => MetricKind::Histogram,
        Instrument::OsIo => MetricKind::Counter,
        Instrument::Errors => MetricKind::Counter,
        Instrument::SnapshotBytes => MetricKind::Histogram,
        Instrument::PrintBytes => MetricKind::Counter,
        Instrument::FrameBytes => MetricKind::Histogram,
    }
}

/// The dotted name of an instrument.
pub open spec fn instrument_name(instrument: Instrument) -> Seq<char> {
    match instrument {
        Instrument::Workers => "monty.pool.workers"@,
        Instrument::CheckoutWait => "monty.pool.checkout.wait"@,
        Instrument::SpawnDuration => "monty.pool.worker.spawn.duration"@,
        Instrument::WorkerTerminated => "monty.pool.worker.terminated"@,
        Instrument::SessionDuration => "monty.pool.session.duration"@,
        Instrument::RunDuration => "monty.run.duration"@,
        Instrument::RunExecution => "monty.run.execution_time"@,
        Instrument::RunBudget => "monty.run.duration_budget_used"@,
        Instrument::TurnDuration => "monty.turn.duration"@,
        Instrument::Suspensions => "monty.run.suspensions"@,
        Instrument::HostCall => "monty.host.call.duration"@,
        Instrument::OsCall => "monty.os.call.duration"@,
        Instrument::OsIo => "monty.os.io.bytes"@,
        Instrument::Errors => "monty.errors"@,
        Instrument::SnapshotBytes => "monty.snapshot.bytes"@,
        Instrument::PrintBytes => "monty.print.bytes"@,
        Instrument::FrameBytes => "monty.wire.frame.bytes"@,
    }
}

/// The UCUM unit of an instrument: `s`, `By`, `1`, or a `{thing}` annotation
/// for counts.
pub open spec fn instrument_unit(instrument: Instrument) -> Seq<char> {
    match instrument {
        Instrument::Workers => "{worker}"@,
        Instrument::CheckoutWait => "s"@,
        Instrument::SpawnDuration => "s"@,
        Instrument::WorkerTerminated => "{worker}"@,
        Instrument::SessionDuration => "s"@,
        Instrument::RunDuration => "s"@,
        Instrument::RunExecution => "s"@,
        Instrument::RunBudget => "1"@,
        Instrument::TurnDuration => "s"@,
        Instrument::Suspensions => "{suspension}"@,
        Instrument::HostCall => "s"@,
        Instrument::OsCall => "s"@,
        Instrument::OsIo => "By"@,
        Instrument::Errors => "{error}"@,
        Instrument::SnapshotBytes => "By"@,
        Instrument::PrintBytes => "By"@,
        Instrument::FrameBytes => "By"@,
    }
}

/// What an instrument measures, in one line.
pub open spec fn instrument_description(instrument: Instrument) -> Seq<char> {
    match instrument {
        Instrument::Workers => "Live monty workers, by state."@,
        Instrument::CheckoutWait => "Time spent acquiring a worker for a checkout."@,
        Instrument::SpawnDuration => "Time to spawn a subprocess worker or dial a remote one."@,
        Instrument::WorkerTerminated => "Workers discarded by the pool, by reason."@,
        Instrument::SessionDuration => "Lifetime of a checked-out session."@,
        Instrument::RunDuration => "Wall time of one feed, including time spent waiting on the host."@,
        Instrument::RunExecution => "Sandbox execution time of one feed, excluding host round-trips."@,
        Instrument::RunBudget => "Fraction of the session's max_duration consumed after a feed."@,
        Instrument::TurnDuration => "Wall time of one non-execution turn, by kind."@,
        Instrument::Suspensions => "Suspensions the sandbox raised for the host to answer, by kind."@,
        Instrument::HostCall => "Time the host took to answer a suspension."@,
        Instrument::OsCall => "Time the host took to answer an os call, by function."@,
        Instrument::OsIo => "Bytes read from and written to mounts."@,
        Instrument::Errors => "Feeds ended by an exception, by exception type."@,
        Instrument::SnapshotBytes => "Size of a session dump."@,
        Instrument::PrintBytes => "Bytes the sandbox printed, by stream."@,
        Instrument::FrameBytes => "Size of one protocol frame, by direction."@,
    }
}

impl Instrument {
    /// The kind of this instrument.
    pub fn kind(self) -> (kind: MetricKind)
        ensures
            kind == instrument_kind(self),
    {
        match self {
            Instrument::Workers => MetricKind::Gauge,
            Instrument::CheckoutWait => MetricKind::Histogram,
            Instrument::SpawnDuration => MetricKind::Histogram,
            Instrument::WorkerTerminated => MetricKind::Counter,
            Instrument::SessionDuration => MetricKind::Histogram,
            Instrument::RunDuration => MetricKind::Histogram,
            Instrument::RunExecution => MetricKind::Histogram,
            Instrument::RunBudget => MetricKind::Histogram,
            Instrument::TurnDuration => MetricKind::Histogram,
            Instrument::Suspensions => MetricKind::Counter,
            Instrument::HostCall => MetricKind::Histogram,
            Instrument::OsCall => MetricKind::Histogram,
            Instrument::OsIo => MetricKind::Counter,
            Instrument::Errors => MetricKind::Counter,
            Instrument::SnapshotBytes => MetricKind::Histogram,
            Instrument::PrintBytes => MetricKind::Counter,
            Instrument::FrameBytes => MetricKind::Histogram,
        }
    }

    /// The dotted name, such as `monty.pool.checkout.wait`.
    pub fn name(self) -> (name: &'static str)
        ensures
            name@ == instrument_name(self),
    {
        match self {
            Instrument::Workers => "monty.pool.workers",
            Instrument::CheckoutWait => "monty.pool.checkout.wait",
            Instrument::SpawnDuration => "monty.pool.worker.spawn.duration",
            Instrument::WorkerTerminated => "monty.pool.worker.terminated",
            Instrument::SessionDuration => "monty.pool.session.duration",
            Instrument::RunDuration => "monty.run.duration",
            Instrument::RunExecution => "monty.run.execution_time",
            Instrument::RunBudget => "monty.run.duration_budget_used",
            Instrument::TurnDuration => "monty.turn.duration",
            Instrument::Suspensions => "monty.run.suspensions",
            Instrument::HostCall => "monty.host.call.duration",
            Instrument::OsCall => "monty.os.call.duration",
            Instrument::OsIo => "monty.os.io.bytes",
            Instrument::Errors => "monty.errors",
            Instrument::SnapshotBytes => "monty.snapshot.bytes",
            Instrument::PrintBytes => "monty.print.bytes",
            Instrument::FrameBytes => "monty.wire.frame.bytes",
        }
    }

    /// The UCUM unit.
    pub fn unit(self) -> (unit: &'static str)
        ensures
            unit@ == instrument_unit(self),
    {
        match self {
            Instrument::Workers => "{worker}",
            Instrument::CheckoutWait => "s",
            Instrument::SpawnDuration => "s",
            Instrument::WorkerTerminated => "{worker}",
            Instrument::SessionDuration => "s",
            Instrument::RunDuration => "s",
            Instrument::RunExecution => "s",
            Instrument::RunBudget => "1",
            Instrument::TurnDuration => "s",
            Instrument::Suspensions => "{suspension}",
            Instrument::HostCall => "s",
            Instrument::OsCall => "s",
            Instrument::OsIo => "By",
            Instrument::Errors => "{error}",
            Instrument::SnapshotBytes => "By",
            Instrument::PrintBytes => "By",
            Instrument::FrameBytes => "By",
        }
    }

    /// One line on what the instrument measures.
    pub fn description(self) -> (description: &'static str)
        ensures
            description@ == instrument_description(self),
    {
        match self {
            Instrument::Workers => "Live monty workers, by state.",
            Instrument::CheckoutWait => "Time spent acquiring a worker for a checkout.",
            Instrument::SpawnDuration => "Time to spawn a subprocess worker or dial a remote one.",
            Instrument::WorkerTerminated => "Workers discarded by the pool, by reason.",
            Instrument::SessionDuration => "Lifetime of a checked-out session.",
            Instrument::RunDuration => "Wall time of one feed, including time spent waiting on the host.",
            Instrument::RunExecution => "Sandbox execution time of one feed, excluding host round-trips.",
            Instrument::RunBudget => "Fraction of the session's max_duration consumed after a feed.",
            Instrument::TurnDuration => "Wall time of one non-execution turn, by kind.",
            Instrument::Suspensions => "Suspensions the sandbox raised for the host to answer, by kind.",
            Instrument::HostCall => "Time the host took to answer a suspension.",
            Instrument::OsCall => "Time the host took to answer an os call, by function.",
            Instrument::OsIo => "Bytes read from and written to mounts.",
            Instrument::Errors => "Feeds ended by an exception, by exception type.",
            Instrument::SnapshotBytes => "Size of a session dump.",
            Instrument::PrintBytes => "Bytes the sandbox printed, by stream.",
            Instrument::FrameBytes => "Size of one protocol frame, by direction.",
        }
    }
}

/// The instruments a host has built so far, each at most once. Built lazily: an
/// instrument needs no bookkeeping beyond being recorded into.
pub struct BuiltInstruments {
    built: Vec<Instrument>,
}

impl View for BuiltInstruments {
    type V = Seq<Instrument>;

    /// The built instruments, oldest first.
    closed spec fn view(&self) -> Seq<Instrument> {
        self.built@
    }
}

impl BuiltInstruments {
    #[verifier::type_invariant]
    spec fn each_once(self) -> bool {
        self.built@.no_duplicates()
    }

    /// Nothing built yet.
    pub fn new() -> (built: BuiltInstruments)
        ensures
            built@ == Seq::<Instrument>::empty(),
    {
        BuiltInstruments { built: Vec::new() }
    }

    /// The position of an instrument that was already built.
    pub fn find(&self, instrument: Instrument) -> (position: Option<usize>)
        ensures
            match position {
                Some(position) => position < self@.len() && self@[position as int] == instrument,
                None => !self@.contains(instrument),
            },
    {
        let mut i: usize = 0;
        while i < self.built.len()
            invariant
                i <= self.built.len(),
                forall|j: int| 0 <= j < i ==> self.built@[j] != instrument,
            decreases self.built.len() - i,
        {
            if self.built[i] == instrument {
                return Some(i);
            }
            i += 1;
        }
        None
    }

    /// The position of an instrument, and whether the host has to build it:
    /// only on its first use, when it is added as the last one.
    pub fn find_or_add(&mut self, instrument: Instrument) -> (result: (usize, bool))
        ensures
            result.1 == !old(self)@.contains(instrument),
            final(self)@ == (if result.1 {
                old(self)@.push(instrument)
            } else {
                old(self)@
            }),
            result.0 < final(self)@.len(),
            final(self)@[result.0 as int] == instrument,
            result.1 ==> result.0 == old(self)@.len(),
            final(self)@.no_duplicates(),
    {
        proof {
            use_type_invariant(&*self);
        }
        match self.find(instrument) {
            Some(position) => {
                assert(self@.contains(self@[position as int]));
                (position, false)
            },
            None => {
                let mut built: Vec<Instrument> = Vec::new();
                std::mem::swap(&mut built, &mut self.built);
                let position: usize = built.len();
                built.push(instrument);
                self.built = built;
                (position, true)
            },
        }
    }
}

/// The length of an instrument's name and the letter after `monty.`, which
/// together tell every two names apart.
spec fn name_key(instrument: Instrument) -> (nat, char) {
    match instrument {
        Instrument::Workers => (18, 'p'),
        Instrument::CheckoutWait => (24, 'p'),
        Instrument::SpawnDuration => (32, 'p'),
        Instrument::WorkerTerminated => (28, 'p'),
        Instrument::SessionDuration => (27, 'p'),
        Instrument::RunDuration => (18, 'r'),
        Instrument::RunExecution => (24, 'r'),
        Instrument::RunBudget => (30, 'r'),
        Instrument::TurnDuration => (19, 't'),
        Instrument::Suspensions => (21, 'r'),
        Instrument::HostCall => (24, 'h'),
        Instrument::OsCall => (22, 'o'),
        Instrument::OsIo => (17, 'o'),
        Instrument::Errors => (12, 'e'),
        Instrument::SnapshotBytes => (20, 's'),
        Instrument::PrintBytes => (17, 'p'),
        Instrument::FrameBytes => (22, 'w'),
    }
}

proof fn lemma_name_key(instrument: Instrument)
    ensures
        instrument_name(instrument).len() == name_key(instrument).0,
        instrument_name(instrument)[6] == name_key(instrument).1,
{
    reveal_strlit("monty.pool.workers");
    reveal_strlit("monty.pool.checkout.wait");
    reveal_strlit("monty.pool.worker.spawn.duration");
    reveal_strlit("monty.pool.worker.terminated");
    reveal_strlit("monty.pool.session.duration");
    reveal_strlit("monty.run.duration");
    reveal_strlit("monty.run.execution_time");
    reveal_strlit("monty.run.duration_budget_used");
    reveal_strlit("monty.turn.duration");
    reveal_strlit("monty.run.suspensions");
    reveal_strlit("monty.host.call.duration");
    reveal_strlit("monty.os.call.duration");
    reveal_strlit("monty.os.io.bytes");
    reveal_strlit("monty.errors");
    reveal_strlit("monty.snapshot.bytes");
    reveal_strlit("monty.print.bytes");
    reveal_strlit("monty.wire.frame.bytes");
}

/// An instrument's name stands for its kind, unit and description: no two
/// instruments share a name.
pub proof fn law_name_identifies_instrument(a: Instrument, b: Instrument)
    requires
        instrument_name(a) == instrument_name(b),
    ensures
        a == b,
{
    lemma_name_key(a);
    lemma_name_key(b);
}

/// The unit and the kind of an instrument follow from what it measures: times
/// are samples in seconds, the budget share is a sample without a unit, sizes are
/// in bytes, counts carry the thing they count; what happens is added up, the
/// number of live workers is observed, and everything else is sampled.
pub proof fn law_instruments_fit_what_they_measure(instrument: Instrument)
    ensures
        (instrument == Instrument::CheckoutWait || instrument == Instrument::SpawnDuration
            || instrument == Instrument::SessionDuration || instrument == Instrument::RunDuration
            || instrument == Instrument::RunExecution || instrument == Instrument::TurnDuration
            || instrument == Instrument::HostCall || instrument == Instrument::OsCall)
            <==> instrument_unit(instrument) == "s"@,
        (instrument == Instrument::OsIo || instrument == Instrument::SnapshotBytes || instrument
            == Instrument::PrintBytes || instrument == Instrument::FrameBytes) <==> instrument_unit(
            instrument,
        ) == "By"@,
        instrument == Instrument::RunBudget <==> instrument_unit(instrument) == "1"@,
        (instrument == Instrument::Workers || instrument == Instrument::WorkerTerminated)
            <==> instrument_unit(instrument) == "{worker}"@,
        instrument == Instrument::Suspensions <==> instrument_unit(instrument) == "{suspension}"@,
        instrument == Instrument::Errors <==> instrument_unit(instrument) == "{error}"@,
        instrument_kind(instrument) == MetricKind::Gauge <==> instrument == Instrument::Workers,
        instrument_kind(instrument) == MetricKind::Counter <==> (instrument
            == Instrument::WorkerTerminated || instrument == Instrument::Suspensions || instrument
            == Instrument::OsIo || instrument == Instrument::Errors || instrument
            == Instrument::PrintBytes),
        instrument_unit(instrument) == "s"@ ==> instrument_kind(instrument)
            == MetricKind::Histogram,
{
    reveal_strlit("s");
    reveal_strlit("By");
    reveal_strlit("1");
    reveal_strlit("{worker}");
    reveal_strlit("{suspension}");
    reveal_strlit("{error}");
    assert("s"@.len() == 1);
    assert("By"@.len() == 2);
    assert("1"@.len() == 1);
    assert("{worker}"@.len() == 8);
    assert("{suspension}"@.len() == 12);
    assert("{error}"@.len() == 7);
    assert("s"@[0] == 's');
    assert("1"@[0] == '1');
}

/// The instruments under their names: a host that looks one up by its name finds
/// the one that measures what the name says.
pub proof fn law_name_finds_its_instrument(instrument: Instrument)
    ensures
        instrument_name(instrument) == "monty.pool.workers"@ <==> instrument == Instrument::Workers,
        instrument_name(instrument) == "monty.pool.checkout.wait"@ <==> instrument == Instrument::CheckoutWait,
        instrument_name(instrument) == "monty.pool.worker.spawn.duration"@ <==> instrument == Instrument::SpawnDuration,
        instrument_name(instrument) == "monty.pool.worker.terminated"@ <==> instrument == Instrument::WorkerTerminated,
        instrument_name(instrument) == "monty.pool.session.duration"@ <==> instrument == Instrument::SessionDuration,
        instrument_name(instrument) == "monty.run.duration"@ <==> instrument == Instrument::RunDuration,
        instrument_name(instrument) == "monty.run.execution_time"@ <==> instrument == Instrument::RunExecution,
        instrument_name(instrument) == "monty.run.duration_budget_used"@ <==> instrument == Instrument::RunBudget,
        instrument_name(instrument) == "monty.turn.duration"@ <==> instrument == Instrument::TurnDuration,
        instrument_name(instrument) == "monty.run.suspensions"@ <==> instrument == Instrument::Suspensions,
        instrument_name(instrument) == "monty.host.call.duration"@ <==> instrument == Instrument::HostCall,
        instrument_name(instrument) == "monty.os.call.duration"@ <==> instrument == Instrument::OsCall,
        instrument_name(instrument) == "monty.os.io.bytes"@ <==> instrument == Instrument::OsIo,
        instrument_name(instrument) == "monty.errors"@ <==> instrument == Instrument::Errors,
        instrument_name(instrument) == "monty.snapshot.bytes"@ <==> instrument == Instrument::SnapshotBytes,
        instrument_name(instrument) == "monty.print.bytes"@ <==> instrument == Instrument::PrintBytes,
        instrument_name(instrument) == "monty.wire.frame.bytes"@ <==> instrument == Instrument::FrameBytes,
{
    lemma_name_key(instrument);
    reveal_strlit("monty.pool.workers");
    reveal_strlit("monty.pool.checkout.wait");
    reveal_strlit("monty.pool.worker.spawn.duration");
    reveal_strlit("monty.pool.worker.terminated");
    reveal_strlit("monty.pool.session.duration");
    reveal_strlit("monty.run.duration");
    reveal_strlit("monty.run.execution_time");
    reveal_strlit("monty.run.duration_budget_used");
    reveal_strlit("monty.turn.duration");
    reveal_strlit("monty.run.suspensions");
    reveal_strlit("monty.host.call.duration");
    reveal_strlit("monty.os.call.duration");
    reveal_strlit("monty.os.io.bytes");
    reveal_strlit("monty.errors");
    reveal_strlit("monty.snapshot.bytes");
    reveal_strlit("monty.print.bytes");
    reveal_strlit("monty.wire.frame.bytes");
    assert("monty.pool.workers"@.len() == 18);
    assert("monty.pool.checkout.wait"@.len() == 24);
    assert("monty.pool.worker.spawn.duration"@.len() == 32);
    assert("monty.pool.worker.terminated"@.len() == 28);
    assert("monty.pool.session.duration"@.len() == 27);
    assert("monty.run.duration"@.len() == 18);
    assert("monty.run.execution_time"@.len() == 24);
    assert("monty.run.duration_budget_used"@.len() == 30);
    assert("monty.turn.duration"@.len() == 19);
    assert("monty.run.suspensions"@.len() == 21);
    assert("monty.host.call.duration"@.len() == 24);
    assert("monty.os.call.duration"@.len() == 22);
    assert("monty.os.io.bytes"@.len() == 17);
    assert("monty.errors"@.len() == 12);
    assert("monty.snapshot.bytes"@.len() == 20);
    assert("monty.print.bytes"@.len() == 17);
    assert("monty.wire.frame.bytes"@.len() == 22);
    assert("monty.pool.workers"@[6] == 'p');
    assert("monty.run.duration"@[6] == 'r');
    assert("monty.pool.checkout.wait"@[6] == 'p');
    assert("monty.run.execution_time"@[6] == 'r');
    assert("monty.host.call.duration"@[6] == 'h');
    assert("monty.os.call.duration"@[6] == 'o');
    assert("monty.wire.frame.bytes"@[6] == 'w');
    assert("monty.os.io.bytes"@[6] == 'o');
    assert("monty.print.bytes"@[6] == 'p');
}

/// Every instrument describes itself.
pub proof fn law_description_fits_the_instrument(instrument: Instrument)
    ensures
        instrument == Instrument::Workers ==> instrument_description(instrument)
            == "Live monty workers, by state."@,
        instrument == Instrument::CheckoutWait ==> instrument_description(instrument)
            == "Time spent acquiring a worker for a checkout."@,
        instrument == Instrument::SpawnDuration ==> instrument_description(instrument)
            == "Time to spawn a subprocess worker or dial a remote one."@,
        instrument == Instrument::WorkerTerminated ==> instrument_description(instrument)
            == "Workers discarded by the pool, by reason."@,
        instrument == Instrument::SessionDuration ==> instrument_description(instrument)
            == "Lifetime of a checked-out session."@,
        instrument == Instrument::RunDuration ==> instrument_description(instrument)
            == "Wall time of one feed, including time spent waiting on the host."@,
        instrument == Instrument::RunExecution ==> instrument_description(instrument)
            == "Sandbox execution time of one feed, excluding host round-trips."@,
        instrument == Instrument::RunBudget ==> instrument_description(instrument)
            == "Fraction of the session's max_duration consumed after a feed."@,
        instrument == Instrument::TurnDuration ==> instrument_description(instrument)
            == "Wall time of one non-execution turn, by kind."@,
        instrument == Instrument::Suspensions ==> instrument_description(instrument)
            == "Suspensions the sandbox raised for the host to answer, by kind."@,
        instrument == Instrument::HostCall ==> instrument_description(instrument)
            == "Time the host took to answer a suspension."@,
        instrument == Instrument::OsCall ==> instrument_description(instrument)
            == "Time the host took to answer an os call, by function."@,
        instrument == Instrument::OsIo ==> instrument_description(instrument)
            == "Bytes read from and written to mounts."@,
        instrument == Instrument::Errors ==> instrument_description(instrument)
            == "Feeds ended by an exception, by exception type."@,
        instrument == Instrument::SnapshotBytes ==> instrument_description(instrument)
            == "Size of a session dump."@,
        instrument == Instrument::PrintBytes ==> instrument_description(instrument)
            == "Bytes the sandbox printed, by stream."@,
        instrument == Instrument::FrameBytes ==> instrument_description(instrument)
            == "Size of one protocol frame, by direction."@,
{
}

} // verus!
