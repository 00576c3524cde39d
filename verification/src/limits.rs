//! Finite resource limits, and their form on the wire.

use crate::time::{Duration, NANOS_PER_MICRO};
use vstd::prelude::*;

verus! {

/// Default maximum heap memory: 100 MB.
pub const DEFAULT_MAX_MEMORY: usize = 100_000_000;

/// Default maximum cumulative allocations.
pub const DEFAULT_MAX_ALLOCATIONS: usize = 10_000_000;

/// Default maximum cumulative execution duration, in seconds.
pub const DEFAULT_MAX_DURATION_SECS: u64 = 60;

/// Default cycle-collection scheduling interval.
pub const DEFAULT_GC_INTERVAL: usize = 100_000;

/// Recommended maximum recursion depth if not otherwise specified.
pub const DEFAULT_MAX_RECURSION_DEPTH: usize = 1000;

/// Configuration for finite resource limits.
///
/// Every execution is bounded. Hosts which need effectively unrestricted
/// execution can configure ceilings high enough to be irrelevant for their
/// workload.
#[derive(Debug, Clone, Copy, PartialEq, Eq, Structural)]
pub struct ResourceLimits {
    /// Maximum number of heap allocations allowed.
    pub max_allocations: usize,
    /// Maximum cumulative execution time.
    pub max_duration: Duration,
    /// Maximum heap memory in bytes (approximate).
    pub max_memory: usize,
    /// Run garbage collection every N GC-tracked allocations.
    pub gc_interval: usize,
    /// Maximum function-call recursion depth.
    pub max_recursion_depth: usize,
}

/// Limits as numbers: sizes and counts, with the duration in nanoseconds.
pub struct LimitsView {
    pub max_allocations: nat,
    pub max_duration: nat,
    pub max_memory: nat,
    pub gc_interval: nat,
    pub max_recursion_depth: nat,
}

impl View for ResourceLimits {
    type V = LimitsView;

    open spec fn view(&self) -> LimitsView {
        LimitsView {
            max_allocations: self.max_allocations as nat,
            max_duration: self.max_duration@,
            max_memory: self.max_memory as nat,
            gc_interval: self.gc_interval as nat,
            max_recursion_depth: self.max_recursion_depth as nat,
        }
    }
}

/// The finite defaults.
pub open spec fn default_limits() -> LimitsView {
    LimitsView {
        max_allocations: DEFAULT_MAX_ALLOCATIONS as nat,
        max_duration: DEFAULT_MAX_DURATION_SECS as nat * 1_000_000_000,
        max_memory: DEFAULT_MAX_MEMORY as nat,
        gc_interval: DEFAULT_GC_INTERVAL as nat,
        max_recursion_depth: DEFAULT_MAX_RECURSION_DEPTH as nat,
    }
}

impl Default for ResourceLimits {
    fn default() -> (limits: Self)
        ensures
            limits@ == default_limits(),
    {
        ResourceLimits {
            max_allocations: DEFAULT_MAX_ALLOCATIONS,
            max_duration: Duration::from_secs(DEFAULT_MAX_DURATION_SECS),
            max_memory: DEFAULT_MAX_MEMORY,
            gc_interval: DEFAULT_GC_INTERVAL,
            max_recursion_depth: DEFAULT_MAX_RECURSION_DEPTH,
        }
    }
}

impl ResourceLimits {
    /// Creates resource limits using the finite defaults.
    #[must_use]
    pub fn new() -> (limits: Self)
        ensures
            limits@ == default_limits(),
    {
        ResourceLimits::default()
    }

    /// Sets the maximum number of allocations.
    #[must_use]
    pub fn max_allocations(self, limit: usize) -> (limits: Self)
        ensures
            limits == (ResourceLimits { max_allocations: limit, ..self }),
    {
        ResourceLimits { max_allocations: limit, ..self }
    }

    /// Sets the maximum execution duration.
    #[must_use]
    pub fn max_duration(self, limit: Duration) -> (limits: Self)
        ensures
            limits == (ResourceLimits { max_duration: limit, ..self }),
    {
        ResourceLimits { max_duration: limit, ..self }
    }

    /// Sets the maximum memory usage in bytes.
    #[must_use]
    pub fn max_memory(self, limit: usize) -> (limits: Self)
        ensures
            limits == (ResourceLimits { max_memory: limit, ..self }),
    {
        ResourceLimits { max_memory: limit, ..self }
    }

    /// Sets the garbage collection interval.
    #[must_use]
    pub fn gc_interval(self, interval: usize) -> (limits: Self)
        ensures
            limits == (ResourceLimits { gc_interval: interval, ..self }),
    {
        ResourceLimits { gc_interval: interval, ..self }
    }

    /// Sets the maximum recursion depth.
    #[must_use]
    pub fn max_recursion_depth(self, limit: usize) -> (limits: Self)
        ensures
            limits == (ResourceLimits { max_recursion_depth: limit, ..self }),
    {
        ResourceLimits { max_recursion_depth: limit, ..self }
    }
}

/// Limits on the wire: optional overrides of the defaults, durations in whole
/// microseconds.
#[derive(Debug, Clone, Copy, PartialEq, Eq, Structural)]
pub struct WireLimits {
    pub max_allocations: Option<u64>,
    pub max_duration_micros: Option<u64>,
    pub max_memory_bytes: Option<u64>,
    pub gc_interval: Option<u64>,
    pub max_recursion_depth: Option<u64>,
}

/// A wire integer held at what `usize` can represent.
pub open spec fn narrowed(value: u64) -> nat {
    if value <= usize::MAX {
        value as nat
    } else {
        usize::MAX as nat
    }
}

/// A duration in whole microseconds, held at `u64::MAX`.
pub open spec fn wire_micros(nanos: nat) -> u64 {
    if nanos / NANOS_PER_MICRO as nat <= u64::MAX {
        (nanos / NANOS_PER_MICRO as nat) as u64
    } else {
        u64::MAX
    }
}

/// What limits say on the wire: every field present.
pub open spec fn to_wire(limits: LimitsView) -> WireLimits {
    WireLimits {
        max_allocations: Some(limits.max_allocations as u64),
        max_duration_micros: Some(wire_micros(limits.max_duration)),
        max_memory_bytes: Some(limits.max_memory as u64),
        gc_interval: Some(limits.gc_interval as u64),
        max_recursion_depth: Some(limits.max_recursion_depth as u64),
    }
}

/// The limits a wire message stands for: each field it leaves out keeps its
/// default.
pub open spec fn from_wire(wire: WireLimits) -> LimitsView {
    let defaults = default_limits();
    LimitsView {
        max_allocations: match wire.max_allocations {
            Some(value) => narrowed(value),
            None => defaults.max_allocations,
        },
        max_duration: match wire.max_duration_micros {
            Some(micros) => micros as nat * NANOS_PER_MICRO as nat,
            None => defaults.max_duration,
        },
        max_memory: match wire.max_memory_bytes {
            Some(value) => narrowed(value),
            None => defaults.max_memory,
        },
        gc_interval: match wire.gc_interval {
            Some(value) => narrowed(value),
            None => defaults.gc_interval,
        },
        max_recursion_depth: match wire.max_recursion_depth {
            Some(value) => narrowed(value),
            None => defaults.max_recursion_depth,
        },
    }
}

/// Narrows a wire integer, saturating on hosts with a narrower pointer width.
pub fn narrow_usize(value: u64) -> (narrow: usize)
    ensures
        narrow == narrowed(value),
{
    match usize::try_from(value) {
        Ok(narrow) => narrow,
        Err(_) => usize::MAX,
    }
}

/// The limits with these numbers.
pub open spec fn limits_of(limits: LimitsView) -> ResourceLimits {
    ResourceLimits {
        max_allocations: limits.max_allocations as usize,
        max_duration: Duration::of(limits.max_duration),
        max_memory: limits.max_memory as usize,
        gc_interval: limits.gc_interval as usize,
        max_recursion_depth: limits.max_recursion_depth as usize,
    }
}

impl vstd::std_specs::convert::FromSpecImpl<&ResourceLimits> for WireLimits {
    open spec fn obeys_from_spec() -> bool {
        true
    }

    open spec fn from_spec(limits: &ResourceLimits) -> WireLimits {
        to_wire(limits@)
    }
}

impl From<&ResourceLimits> for WireLimits {
    fn from(limits: &ResourceLimits) -> (wire: WireLimits) {
        let micros: u128 = limits.max_duration.as_micros();
        let max_duration_micros: u64 = match u64::try_from(micros) {
            Ok(micros) => micros,
            Err(_) => u64::MAX,
        };
        WireLimits {
            max_allocations: Some(limits.max_allocations as u64),
            max_duration_micros: Some(max_duration_micros),
            max_memory_bytes: Some(limits.max_memory as u64),
            gc_interval: Some(limits.gc_interval as u64),
            max_recursion_depth: Some(limits.max_recursion_depth as u64),
        }
    }
}

impl vstd::std_specs::convert::FromSpecImpl<WireLimits> for ResourceLimits {
    open spec fn obeys_from_spec() -> bool {
        true
    }

    open spec fn from_spec(wire: WireLimits) -> ResourceLimits {
        limits_of(from_wire(wire))
    }
}

impl From<WireLimits> for ResourceLimits {
    fn from(wire: WireLimits) -> (limits: ResourceLimits)
        ensures
            limits@ == from_wire(wire),
    {
        let mut output = ResourceLimits::default();
        if let Some(value) = wire.max_allocations {
            output.max_allocations = narrow_usize(value);
        }
        if let Some(value) = wire.max_duration_micros {
            output.max_duration = Duration::from_micros(value);
        }
        if let Some(value) = wire.max_memory_bytes {
            output.max_memory = narrow_usize(value);
        }
        if let Some(value) = wire.gc_interval {
            output.gc_interval = narrow_usize(value);
        }
        if let Some(value) = wire.max_recursion_depth {
            output.max_recursion_depth = narrow_usize(value);
        }
        proof {
            Duration::lemma_of(output.max_duration@);
        }
        output
    }
}

/// Reading back what was written gives the same limits, with the duration cut
/// to whole microseconds; a duration beyond `u64::MAX` microseconds comes back
/// as that many.
pub proof fn law_wire_round_trip(limits: LimitsView)
    requires
        limits.max_allocations <= usize::MAX,
        limits.max_memory <= usize::MAX,
        limits.gc_interval <= usize::MAX,
        limits.max_recursion_depth <= usize::MAX,
    ensures
        from_wire(to_wire(limits)) == (LimitsView {
            max_duration: wire_micros(limits.max_duration) as nat * NANOS_PER_MICRO as nat,
            ..limits
        }),
        limits.max_duration % NANOS_PER_MICRO as nat == 0 && limits.max_duration
            <= u64::MAX as nat * NANOS_PER_MICRO as nat ==> from_wire(to_wire(limits)) == limits,
{
}

/// A message without overrides stands for the defaults.
pub proof fn law_empty_wire_limits(wire: WireLimits)
    requires
        wire.max_allocations is None,
        wire.max_duration_micros is None,
        wire.max_memory_bytes is None,
        wire.gc_interval is None,
        wire.max_recursion_depth is None,
    ensures
        from_wire(wire) == default_limits(),
{
}

/// What one field of a message stands for: its own value, held at what the
/// platform can count, or the default when it is absent.
pub open spec fn own_or_default(field: Option<u64>, default: nat) -> nat {
    match field {
        Some(value) => if value as nat <= usize::MAX as nat {
            value as nat
        } else {
            usize::MAX as nat
        },
        None => default,
    }
}

/// Each field of a message is read on its own: whichever others are present, a
/// field that is absent gives its default, and one that is present gives its own
/// value.
pub proof fn law_each_field_is_read_alone(wire: WireLimits)
    ensures
        ({
            let limits = from_wire(wire);
            &&& limits.max_allocations == own_or_default(wire.max_allocations, 10_000_000)
            &&& limits.max_memory == own_or_default(wire.max_memory_bytes, 100_000_000)
            &&& limits.gc_interval == own_or_default(wire.gc_interval, 100_000)
            &&& limits.max_recursion_depth == own_or_default(wire.max_recursion_depth, 1000)
            &&& wire.max_duration_micros is None ==> limits.max_duration == 60_000_000_000
            &&& wire.max_duration_micros matches Some(micros) ==> limits.max_duration == micros
                * 1000
        }),
{
}

/// Two messages that agree on a field give the same limit for it, however they
/// differ elsewhere.
pub proof fn law_fields_do_not_mix(a: WireLimits, b: WireLimits)
    ensures
        a.max_allocations == b.max_allocations ==> from_wire(a).max_allocations == from_wire(
            b,
        ).max_allocations,
        a.max_duration_micros == b.max_duration_micros ==> from_wire(a).max_duration == from_wire(
            b,
        ).max_duration,
        a.max_memory_bytes == b.max_memory_bytes ==> from_wire(a).max_memory == from_wire(
            b,
        ).max_memory,
        a.gc_interval == b.gc_interval ==> from_wire(a).gc_interval == from_wire(b).gc_interval,
        a.max_recursion_depth == b.max_recursion_depth ==> from_wire(a).max_recursion_depth
            == from_wire(b).max_recursion_depth,
{
}

/// Each limit is written into the field of its own name, and none is left out;
/// the duration goes in whole microseconds, rounded down, and at most `u64::MAX`
/// of them.
pub proof fn law_each_field_is_written_alone(limits: LimitsView)
    requires
        limits.max_allocations <= usize::MAX,
        limits.max_memory <= usize::MAX,
        limits.gc_interval <= usize::MAX,
        limits.max_recursion_depth <= usize::MAX,
    ensures
        ({
            let wire = to_wire(limits);
            &&& wire.max_allocations is Some && wire.max_allocations->0 as nat
                == limits.max_allocations
            &&& wire.max_memory_bytes is Some && wire.max_memory_bytes->0 as nat
                == limits.max_memory
            &&& wire.gc_interval is Some && wire.gc_interval->0 as nat == limits.gc_interval
            &&& wire.max_recursion_depth is Some && wire.max_recursion_depth->0 as nat
                == limits.max_recursion_depth
            &&& wire.max_duration_micros is Some
            &&& wire.max_duration_micros->0 * 1000 <= limits.max_duration
            &&& limits.max_duration < wire.max_duration_micros->0 * 1000 + 1000
                || wire.max_duration_micros->0 == u64::MAX
        }),
{
}

} // verus!
