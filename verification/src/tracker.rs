//! Accounting of the resources one execution session uses.
//!
//! Allocation count and execution time are cumulative across feeds, while
//! current memory falls when values are freed. The clock runs only inside an
//! execution window; a suspended or idle session uses no time.

use crate::limits::{default_limits, LimitsView, ResourceLimits};
use crate::resource::{refusal, ResourceError, ResourceErrorView};
use crate::time::{between, saturated, Clock, Duration, MAX_NANOS};
use vstd::prelude::*;

verus! {

/// How often to read the monotonic clock while executing bytecode.
pub const TIME_CHECK_INTERVAL: u16 = 10;

/// Tracks and enforces resources for one execution session.
#[derive(Debug)]
pub struct ResourceTracker {
    clock: Clock,
    limits: ResourceLimits,
    total_execution_time: Duration,
    execution_time_overflowed: bool,
    running_since: Option<Duration>,
    allocation_count: usize,
    current_memory: usize,
    check_counter: u16,
    recursion_limit_override: Option<usize>,
}

/// A tracker as numbers, durations in nanoseconds.
pub struct TrackerView {
    /// The clock that execution windows are timed with.
    pub clock: Clock,
    pub limits: LimitsView,
    /// Execution time of the windows that have ended.
    pub total: nat,
    /// Whether that time went out of range.
    pub overflowed: bool,
    /// When the open execution window started, on that clock.
    pub running_since: Option<nat>,
    pub count: nat,
    pub memory: nat,
    /// Time checks so far, wrapping.
    pub counter: u16,
    /// A recursion ceiling in place of the configured one.
    pub recursion: Option<nat>,
}

impl View for ResourceTracker {
    type V = TrackerView;

    closed spec fn view(&self) -> TrackerView {
        TrackerView {
            clock: self.clock,
            limits: self.limits@,
            total: self.total_execution_time@,
            overflowed: self.execution_time_overflowed,
            running_since: match self.running_since {
                Some(start) => Some(start@),
                None => None,
            },
            count: self.allocation_count as nat,
            memory: self.current_memory as nat,
            counter: self.check_counter,
            recursion: match self.recursion_limit_override {
                Some(limit) => Some(limit as nat),
                None => None,
            },
        }
    }
}

/// A tracker that has charged nothing yet.
pub open spec fn fresh(limits: LimitsView, clock: Clock) -> TrackerView {
    TrackerView {
        clock,
        limits,
        total: 0,
        overflowed: false,
        running_since: None,
        count: 0,
        memory: 0,
        counter: 0,
        recursion: None,
    }
}

/// A tracker that starts with a heap of `count` objects in `memory` bytes.
pub open spec fn holding(limits: LimitsView, clock: Clock, count: nat, memory: nat) -> TrackerView {
    TrackerView { count, memory, ..fresh(limits, clock) }
}

/// Whether a session's allocations and memory are within its limits.
pub open spec fn within_limits(state: TrackerView) -> bool {
    state.count <= state.limits.max_allocations && state.memory <= state.limits.max_memory
}

/// The live recursion ceiling.
pub open spec fn recursion_limit(state: TrackerView) -> nat {
    match state.recursion {
        Some(limit) => limit,
        None => state.limits.max_recursion_depth,
    }
}

/// Why a heap holding `count` objects in `memory` bytes cannot be restored
/// under `limits`, if it cannot.
pub open spec fn restore_refusal(
    limits: LimitsView,
    count: nat,
    memory: nat,
) -> Option<ResourceErrorView> {
    if count > limits.max_allocations {
        Some(ResourceErrorView::Allocation { limit: limits.max_allocations, count })
    } else if memory > limits.max_memory {
        Some(ResourceErrorView::Memory { limit: limits.max_memory, used: memory })
    } else {
        None
    }
}

/// Why `additional` more bytes cannot be charged, if they cannot.
pub open spec fn memory_refusal(state: TrackerView, additional: nat) -> Option<ResourceErrorView> {
    if state.memory + additional > usize::MAX {
        Some(ResourceErrorView::MemoryUnrepresentable { limit: state.limits.max_memory })
    } else if state.memory + additional > state.limits.max_memory {
        Some(
            ResourceErrorView::Memory {
                limit: state.limits.max_memory,
                used: state.memory + additional,
            },
        )
    } else {
        None
    }
}

/// Why one more allocation cannot be counted, if it cannot.
pub open spec fn count_refusal(state: TrackerView) -> Option<ResourceErrorView> {
    if state.count + 1 > usize::MAX {
        Some(ResourceErrorView::AllocationUnrepresentable { limit: state.limits.max_allocations })
    } else if state.count + 1 > state.limits.max_allocations {
        Some(
            ResourceErrorView::Allocation {
                limit: state.limits.max_allocations,
                count: state.count + 1,
            },
        )
    } else {
        None
    }
}

/// Why an allocation of `size` bytes is refused, if it is: the count is
/// checked before the memory.
pub open spec fn allocation_refusal(state: TrackerView, size: nat) -> Option<ResourceErrorView> {
    match count_refusal(state) {
        Some(error) => Some(error),
        None => memory_refusal(state, size),
    }
}

/// The tracker after an allocation of `size` bytes; one that is refused
/// charges nothing.
pub open spec fn allocated(state: TrackerView, size: nat) -> TrackerView {
    if allocation_refusal(state, size) is None {
        TrackerView { count: state.count + 1, memory: state.memory + size, ..state }
    } else {
        state
    }
}

/// The tracker after an object grew by `additional` bytes; growth that is
/// refused charges nothing.
pub open spec fn grown(state: TrackerView, additional: nat) -> TrackerView {
    if memory_refusal(state, additional) is None {
        TrackerView { memory: state.memory + additional, ..state }
    } else {
        state
    }
}

/// The tracker after an object of `size` bytes was freed.
pub open spec fn freed(state: TrackerView, size: nat) -> TrackerView {
    TrackerView {
        memory: if state.memory >= size {
            (state.memory - size) as nat
        } else {
            0
        },
        ..state
    }
}

/// How long the open execution window has lasted at `now`; no time at all when
/// none is open.
pub open spec fn window(state: TrackerView, now: nat) -> nat {
    match state.running_since {
        Some(start) => between(start, now),
        None => 0,
    }
}

/// Cumulative execution time when the open window has lasted `running`
/// nanoseconds.
pub open spec fn elapsed_time(state: TrackerView, running: nat) -> nat {
    if state.overflowed {
        MAX_NANOS as nat
    } else {
        saturated(state.total + running)
    }
}

/// The count of time checks after one more.
pub open spec fn next_counter(counter: u16) -> u16 {
    if counter == u16::MAX {
        0
    } else {
        (counter + 1) as u16
    }
}

/// Whether the next time check reads the clock: every tenth does, and all of
/// them do when there is no time at all to spend.
pub open spec fn time_check_due(state: TrackerView) -> bool {
    state.limits.max_duration == 0 || next_counter(state.counter) as nat
        % TIME_CHECK_INTERVAL as nat == 0
}

/// Why a time check fails when the open window has lasted `running`
/// nanoseconds, if it does.
pub open spec fn time_refusal(state: TrackerView, running: nat) -> Option<ResourceErrorView> {
    let limit = state.limits.max_duration;
    if !time_check_due(state) {
        None
    } else if state.overflowed || state.total + running > MAX_NANOS {
        Some(ResourceErrorView::TimeUnrepresentable { limit })
    } else if state.total + running > limit {
        Some(ResourceErrorView::Time { limit, elapsed: state.total + running })
    } else {
        None
    }
}

/// The tracker after a time check. Once the limit is exceeded the very next
/// check reads the clock again.
pub open spec fn time_checked(state: TrackerView, running: nat) -> TrackerView {
    TrackerView {
        counter: if time_refusal(state, running) is Some && time_refusal(state, running)->0 is Time {
            (TIME_CHECK_INTERVAL - 1) as u16
        } else {
            next_counter(state.counter)
        },
        ..state
    }
}

/// Why another call frame may not be pushed on `depth` frames, if it may not.
pub open spec fn depth_refusal(state: TrackerView, depth: nat) -> Option<ResourceErrorView> {
    let limit = recursion_limit(state);
    if depth < limit {
        None
    } else if depth + 1 > usize::MAX {
        Some(ResourceErrorView::RecursionUnrepresentable { limit })
    } else {
        Some(ResourceErrorView::Recursion { limit, depth: depth + 1 })
    }
}

/// The tracker with an execution window open since `now`.
pub open spec fn started(state: TrackerView, now: nat) -> TrackerView {
    TrackerView { running_since: Some(now), ..state }
}

/// The tracker after its execution window, if one was open, ended after
/// `running` nanoseconds.
pub open spec fn stopped(state: TrackerView, running: nat) -> TrackerView {
    if state.running_since is None {
        state
    } else if state.total + running <= MAX_NANOS {
        TrackerView { running_since: None, total: state.total + running, ..state }
    } else {
        TrackerView { running_since: None, overflowed: true, ..state }
    }
}

/// The tracker with a fresh duration budget; an open window restarts at `now`.
pub open spec fn rebudgeted(state: TrackerView, limit: nat, now: nat) -> TrackerView {
    TrackerView {
        limits: LimitsView { max_duration: limit, ..state.limits },
        total: 0,
        overflowed: false,
        running_since: match state.running_since {
            Some(_) => Some(now),
            None => None,
        },
        ..state
    }
}

/// The tracker with its recursion ceiling lowered to `limit`, or the ceiling in
/// force when that is lower.
pub open spec fn lowered(state: TrackerView, limit: nat) -> Result<TrackerView, nat> {
    if limit > recursion_limit(state) {
        Err(recursion_limit(state))
    } else {
        Ok(TrackerView { recursion: Some(limit), ..state })
    }
}

/// What a saved session keeps of its tracker.
#[derive(Debug, Clone, Copy, PartialEq, Eq, Structural)]
pub struct TrackerSnapshot {
    pub limits: ResourceLimits,
    pub total_execution_time: Duration,
    pub execution_time_overflowed: bool,
    pub allocation_count: usize,
    pub current_memory: usize,
    pub check_counter: u16,
    pub recursion_limit_override: Option<usize>,
}

/// The tracker a saved session resumes with: everything charged so far, and no
/// open execution window.
pub open spec fn resumed(snapshot: TrackerSnapshot, clock: Clock) -> TrackerView {
    TrackerView {
        clock,
        limits: snapshot.limits@,
        total: snapshot.total_execution_time@,
        overflowed: snapshot.execution_time_overflowed,
        running_since: None,
        count: snapshot.allocation_count as nat,
        memory: snapshot.current_memory as nat,
        counter: snapshot.check_counter,
        recursion: match snapshot.recursion_limit_override {
            Some(limit) => Some(limit as nat),
            None => None,
        },
    }
}

impl ResourceTracker {
    /// Creates a tracker with the supplied finite limits.
    #[must_use]
    pub fn new(limits: ResourceLimits) -> (tracker: Self)
        ensures
            tracker@ == fresh(limits@, tracker@.clock),
    {
        ResourceTracker {
            clock: Clock::start(),
            limits,
            total_execution_time: Duration::zero(),
            execution_time_overflowed: false,
            running_since: None,
            allocation_count: 0,
            current_memory: 0,
            check_counter: 0,
            recursion_limit_override: None,
        }
    }

    /// Creates a tracker with the default limits.
    #[must_use]
    pub fn default_limits() -> (tracker: Self)
        ensures
            tracker@ == fresh(default_limits(), tracker@.clock),
    {
        ResourceTracker::new(ResourceLimits::default())
    }

    /// Creates a fresh accounting epoch for a validated restored heap.
    pub fn restored(
        limits: ResourceLimits,
        allocation_count: usize,
        current_memory: usize,
    ) -> (result: Result<Self, ResourceError>)
        ensures
            refusal(result) == restore_refusal(
                limits@,
                allocation_count as nat,
                current_memory as nat,
            ),
            result matches Ok(tracker) ==> tracker@ == holding(
                limits@,
                tracker@.clock,
                allocation_count as nat,
                current_memory as nat,
            ),
    {
        if allocation_count > limits.max_allocations {
            Err(
                ResourceError::Allocation {
                    limit: limits.max_allocations,
                    count: allocation_count,
                },
            )
        } else if current_memory > limits.max_memory {
            Err(ResourceError::Memory { limit: limits.max_memory, used: current_memory })
        } else {
            let mut tracker = ResourceTracker::new(limits);
            tracker.allocation_count = allocation_count;
            tracker.current_memory = current_memory;
            Ok(tracker)
        }
    }

    /// What a saved session keeps of this tracker. An open execution window is
    /// not part of it.
    pub fn snapshot(&self) -> (snapshot: TrackerSnapshot)
        ensures
            resumed(snapshot, self@.clock) == (TrackerView { running_since: None, ..self@ }),
    {
        TrackerSnapshot {
            limits: self.limits,
            total_execution_time: self.total_execution_time,
            execution_time_overflowed: self.execution_time_overflowed,
            allocation_count: self.allocation_count,
            current_memory: self.current_memory,
            check_counter: self.check_counter,
            recursion_limit_override: self.recursion_limit_override,
        }
    }

    /// The tracker of a loaded session, with everything charged before it was
    /// saved.
    pub fn from_snapshot(snapshot: TrackerSnapshot) -> (tracker: Self)
        ensures
            tracker@ == resumed(snapshot, tracker@.clock),
    {
        ResourceTracker {
            clock: Clock::start(),
            limits: snapshot.limits,
            total_execution_time: snapshot.total_execution_time,
            execution_time_overflowed: snapshot.execution_time_overflowed,
            running_since: None,
            allocation_count: snapshot.allocation_count,
            current_memory: snapshot.current_memory,
            check_counter: snapshot.check_counter,
            recursion_limit_override: snapshot.recursion_limit_override,
        }
    }

    /// Returns the live recursion ceiling.
    pub fn active_recursion_limit(&self) -> (limit: usize)
        ensures
            limit == recursion_limit(self@),
    {
        match self.recursion_limit_override {
            Some(limit) => limit,
            None => self.limits.max_recursion_depth,
        }
    }

    /// Returns the current allocation count.
    #[must_use]
    pub fn allocation_count(&self) -> (count: usize)
        ensures
            count == self@.count,
    {
        self.allocation_count
    }

    /// Returns the current approximate memory usage.
    #[must_use]
    pub fn current_memory(&self) -> (bytes: usize)
        ensures
            bytes == self@.memory,
    {
        self.current_memory
    }

    /// Returns cumulative bytecode execution time, including an active window.
    #[must_use]
    pub fn elapsed(&self) -> (elapsed: Duration)
        ensures
            exists|now: nat|
                now <= MAX_NANOS && (self@.running_since is Some ==> self@.clock.shows(now))
                    && elapsed@ == elapsed_time(self@, #[trigger] window(self@, now)),
    {
        let now = if self.running_since.is_some() {
            self.clock.read()
        } else {
            Duration::zero()
        };
        self.elapsed_at(now)
    }

    /// Returns cumulative bytecode execution time at a moment of this tracker's
    /// clock.
    pub fn elapsed_at(&self, now: Duration) -> (elapsed: Duration)
        ensures
            elapsed@ == elapsed_time(self@, window(self@, now@)),
    {
        if self.execution_time_overflowed {
            Duration::max_value()
        } else {
            self.total_execution_time.saturating_add(&self.running_at(now))
        }
    }

    /// How long the active window has lasted at `now`.
    fn running_at(&self, now: Duration) -> (running: Duration)
        ensures
            running@ == window(self@, now@),
    {
        match &self.running_since {
            Some(start) => now.since(start),
            None => Duration::zero(),
        }
    }

    /// Returns the configured cumulative execution ceiling.
    #[must_use]
    pub fn max_duration(&self) -> (limit: Duration)
        ensures
            limit@ == self@.limits.max_duration,
    {
        self.limits.max_duration
    }

    /// Replaces the execution duration with a fresh budget from now.
    pub fn set_max_duration(&mut self, duration: Duration)
        ensures
            exists|now: nat|
                now <= MAX_NANOS && (old(self)@.running_since is Some ==> old(
                    self,
                )@.clock.shows(now)) && final(self)@ == #[trigger] rebudgeted(
                    old(self)@,
                    duration@,
                    now,
                ),
    {
        let now = if self.running_since.is_some() {
            self.clock.read()
        } else {
            Duration::zero()
        };
        self.set_max_duration_at(duration, now);
    }

    /// Replaces the execution duration with a fresh budget from a moment of
    /// this tracker's clock.
    pub fn set_max_duration_at(&mut self, duration: Duration, now: Duration)
        ensures
            final(self)@ == rebudgeted(old(self)@, duration@, now@),
    {
        self.limits.max_duration = duration;
        self.total_execution_time = Duration::zero();
        self.execution_time_overflowed = false;
        if self.running_since.is_some() {
            self.running_since = Some(now);
        }
    }

    /// Returns the configured GC interval.
    #[must_use]
    pub fn gc_interval(&self) -> (interval: usize)
        ensures
            interval == self@.limits.gc_interval,
    {
        self.limits.gc_interval
    }

    /// Charges one heap allocation, rejecting arithmetic overflow as
    /// exhaustion. The size is asked for only once the count is accepted.
    pub fn on_allocate<G: FnOnce() -> usize>(&mut self, get_size: G) -> (result: Result<
        (),
        ResourceError,
    >)
        requires
            count_refusal(old(self)@) is None ==> get_size.requires(()),
        ensures
            count_refusal(old(self)@) is Some ==> refusal(result) == count_refusal(old(self)@)
                && final(self)@ == old(self)@,
            count_refusal(old(self)@) is None ==> exists|size: usize| #[trigger]
                get_size.ensures((), size) && refusal(result) == allocation_refusal(
                    old(self)@,
                    size as nat,
                ) && final(self)@ == allocated(old(self)@, size as nat),
    {
        let count: usize = match self.allocation_count.checked_add(1) {
            Some(count) => count,
            None => {
                return Err(
                    ResourceError::AllocationUnrepresentable {
                        limit: self.limits.max_allocations,
                    },
                );
            },
        };
        if count > self.limits.max_allocations {
            return Err(ResourceError::Allocation { limit: self.limits.max_allocations, count });
        }
        let size: usize = get_size();
        let memory: usize = match self.current_memory.checked_add(size) {
            Some(memory) => memory,
            None => {
                return Err(
                    ResourceError::MemoryUnrepresentable { limit: self.limits.max_memory },
                );
            },
        };
        if memory > self.limits.max_memory {
            return Err(ResourceError::Memory { limit: self.limits.max_memory, used: memory });
        }
        self.allocation_count = count;
        self.current_memory = memory;
        Ok(())
    }

    /// Removes the estimated memory charge for a freed heap object.
    pub fn on_free<G: FnOnce() -> usize>(&mut self, get_size: G)
        requires
            get_size.requires(()),
        ensures
            exists|size: usize| #[trigger]
                get_size.ensures((), size) && final(self)@ == freed(old(self)@, size as nat),
    {
        let size: usize = get_size();
        self.current_memory = self.current_memory.saturating_sub(size);
    }

    /// Charges growth of an existing heap object.
    pub fn on_grow(&mut self, additional_bytes: usize) -> (result: Result<(), ResourceError>)
        ensures
            refusal(result) == memory_refusal(old(self)@, additional_bytes as nat),
            final(self)@ == grown(old(self)@, additional_bytes as nat),
    {
        self.check_large_result(additional_bytes)?;
        self.current_memory = self.current_memory + additional_bytes;
        Ok(())
    }

    /// Whether the next time check reads the clock.
    pub fn is_time_check_due(&self) -> (due: bool)
        ensures
            due == time_check_due(self@),
    {
        self.limits.max_duration.is_zero() || self.check_counter.wrapping_add(1)
            % TIME_CHECK_INTERVAL == 0
    }

    /// Checks the cumulative execution duration. The clock is only read when
    /// the check is due and a window is open.
    pub fn check_time(&mut self) -> (result: Result<(), ResourceError>)
        ensures
            exists|now: nat|
                now <= MAX_NANOS && (old(self)@.running_since is Some && time_check_due(old(self)@)
                    ==> old(self)@.clock.shows(now)) && refusal(result) == time_refusal(
                    old(self)@,
                    #[trigger] window(old(self)@, now),
                ) && final(self)@ == time_checked(old(self)@, window(old(self)@, now)),
    {
        let now = if self.running_since.is_some() && self.is_time_check_due() {
            self.clock.read()
        } else {
            Duration::zero()
        };
        self.check_time_at(now)
    }

    /// Checks the cumulative execution duration at a moment of this tracker's
    /// clock.
    pub fn check_time_at(&mut self, now: Duration) -> (result: Result<(), ResourceError>)
        ensures
            refusal(result) == time_refusal(old(self)@, window(old(self)@, now@)),
            final(self)@ == time_checked(old(self)@, window(old(self)@, now@)),
    {
        let due = self.is_time_check_due();
        self.check_counter = self.check_counter.wrapping_add(1);
        assert(self.check_counter == next_counter(old(self)@.counter));
        if due {
            if self.execution_time_overflowed {
                return Err(
                    ResourceError::TimeUnrepresentable { limit: self.limits.max_duration },
                );
            }
            let elapsed = match self.total_execution_time.checked_add(&self.running_at(now)) {
                Some(elapsed) => elapsed,
                None => {
                    return Err(
                        ResourceError::TimeUnrepresentable { limit: self.limits.max_duration },
                    );
                },
            };
            if elapsed.exceeds(&self.limits.max_duration) {
                self.check_counter = TIME_CHECK_INTERVAL - 1;
                return Err(ResourceError::Time { limit: self.limits.max_duration, elapsed });
            }
        }
        Ok(())
    }

    /// Checks whether another call frame may be pushed.
    pub fn check_recursion_depth(&self, current_depth: usize) -> (result: Result<
        (),
        ResourceError,
    >)
        ensures
            refusal(result) == depth_refusal(self@, current_depth as nat),
    {
        let max: usize = self.active_recursion_limit();
        if current_depth >= max {
            match current_depth.checked_add(1) {
                Some(depth) => Err(ResourceError::Recursion { limit: max, depth }),
                None => Err(ResourceError::RecursionUnrepresentable { limit: max }),
            }
        } else {
            Ok(())
        }
    }

    /// Checks an estimated large result before constructing it.
    pub fn check_large_result(&self, estimated_bytes: usize) -> (result: Result<
        (),
        ResourceError,
    >)
        ensures
            refusal(result) == memory_refusal(self@, estimated_bytes as nat),
    {
        let used: usize = match self.current_memory.checked_add(estimated_bytes) {
            Some(used) => used,
            None => {
                return Err(
                    ResourceError::MemoryUnrepresentable { limit: self.limits.max_memory },
                );
            },
        };
        if used > self.limits.max_memory {
            Err(ResourceError::Memory { limit: self.limits.max_memory, used })
        } else {
            Ok(())
        }
    }

    /// Starts one non-nested bytecode execution window.
    pub fn on_execution_start(&mut self)
        requires
            old(self)@.running_since is None,
        ensures
            exists|now: nat|
                now <= MAX_NANOS && old(self)@.clock.shows(now) && final(self)@
                    == #[trigger] started(old(self)@, now),
    {
        let now = self.clock.read();
        self.on_execution_start_at(now);
    }

    /// Starts one non-nested bytecode execution window at a moment of this
    /// tracker's clock.
    pub fn on_execution_start_at(&mut self, now: Duration)
        requires
            old(self)@.running_since is None,
        ensures
            final(self)@ == started(old(self)@, now@),
    {
        self.running_since = Some(now);
    }

    /// Stops the active execution window and accumulates its duration.
    pub fn on_execution_stop(&mut self)
        ensures
            exists|now: nat|
                now <= MAX_NANOS && (old(self)@.running_since is Some ==> old(
                    self,
                )@.clock.shows(now)) && final(self)@ == stopped(
                    old(self)@,
                    #[trigger] window(old(self)@, now),
                ),
    {
        let now = if self.running_since.is_some() {
            self.clock.read()
        } else {
            Duration::zero()
        };
        self.on_execution_stop_at(now);
    }

    /// Stops the active execution window at a moment of this tracker's clock
    /// and accumulates its duration.
    pub fn on_execution_stop_at(&mut self, now: Duration)
        ensures
            final(self)@ == stopped(old(self)@, window(old(self)@, now@)),
    {
        if self.running_since.is_some() {
            let running = self.running_at(now);
            self.running_since = None;
            if let Some(total) = self.total_execution_time.checked_add(&running) {
                self.total_execution_time = total;
            } else {
                self.execution_time_overflowed = true;
            }
        }
    }

    /// Lowers the live recursion ceiling without allowing sandbox code to
    /// raise it; a higher one is refused with the ceiling in force.
    pub fn lower_recursion_limit(&mut self, new_limit: usize) -> (result: Result<
        (),
        Option<usize>,
    >)
        ensures
            match result {
                Ok(()) => lowered(old(self)@, new_limit as nat) == Ok::<TrackerView, nat>(
                    final(self)@,
                ),
                Err(Some(limit)) => lowered(old(self)@, new_limit as nat) == Err::<
                    TrackerView,
                    nat,
                >(limit as nat) && final(self)@ == old(self)@,
                Err(None) => false,
            },
    {
        let current: usize = self.active_recursion_limit();
        if new_limit > current {
            Err(Some(current))
        } else {
            self.recursion_limit_override = Some(new_limit);
            Ok(())
        }
    }
}

impl Default for ResourceTracker {
    fn default() -> (tracker: Self)
        ensures
            tracker@ == fresh(default_limits(), tracker@.clock),
    {
        ResourceTracker::default_limits()
    }
}

/// No operation takes a session past its allocation or memory limit: a fresh
/// tracker and a restored one start within them, and every charge keeps the
/// session there, whatever its size.
pub proof fn law_limits_are_never_exceeded(
    state: TrackerView,
    limits: LimitsView,
    count: nat,
    bytes: nat,
    running: nat,
    budget: nat,
    now: nat,
    clock: Clock,
)
    ensures
        within_limits(fresh(limits, clock)),
        restore_refusal(limits, count, bytes) is None ==> within_limits(
            TrackerView { count, memory: bytes, ..fresh(limits, clock) },
        ),
        within_limits(state) ==> {
            &&& within_limits(allocated(state, bytes))
            &&& within_limits(grown(state, bytes))
            &&& within_limits(freed(state, bytes))
            &&& within_limits(time_checked(state, running))
            &&& within_limits(started(state, now))
            &&& within_limits(stopped(state, running))
            &&& within_limits(rebudgeted(state, budget, now))
        },
{
}

/// A refused charge changes nothing, and one that is accepted is charged in
/// full: the count by one, the memory by the size.
pub proof fn law_charges_are_all_or_nothing(state: TrackerView, bytes: nat)
    ensures
        allocation_refusal(state, bytes) is Some ==> allocated(state, bytes) == state,
        allocation_refusal(state, bytes) is None ==> {
            &&& allocated(state, bytes).count == state.count + 1
            &&& allocated(state, bytes).memory == state.memory + bytes
        },
        memory_refusal(state, bytes) is Some ==> grown(state, bytes) == state,
        memory_refusal(state, bytes) is None ==> grown(state, bytes).memory == state.memory + bytes,
{
}

/// Freeing gives back what allocating or growing charged to memory, while the
/// allocation count never falls.
pub proof fn law_free_returns_the_memory(state: TrackerView, bytes: nat)
    ensures
        allocation_refusal(state, bytes) is None ==> freed(allocated(state, bytes), bytes) == (
        TrackerView { count: state.count + 1, ..state }),
        memory_refusal(state, bytes) is None ==> freed(grown(state, bytes), bytes) == state,
        freed(state, bytes).count == state.count,
{
}

/// The tracker after `n` time checks under the given readings of the open
/// window.
pub open spec fn after_time_checks(state: TrackerView, readings: Seq<nat>, n: nat) -> TrackerView
    decreases n,
{
    if n == 0 {
        state
    } else {
        time_checked(
            after_time_checks(state, readings, (n - 1) as nat),
            readings[n - 1],
        )
    }
}

/// Whether the check after the first `n` is refused.
pub open spec fn check_refused(state: TrackerView, readings: Seq<nat>, n: nat) -> bool {
    time_refusal(after_time_checks(state, readings, n), readings[n as int]) is Some
}

/// An exceeded time limit is noticed within ten checks: of any ten in a row
/// that find the execution time beyond the limit, one is refused.
pub proof fn law_time_limit_is_noticed(state: TrackerView, readings: Seq<nat>)
    requires
        readings.len() == TIME_CHECK_INTERVAL,
        forall|i: int|
            0 <= i < readings.len() ==> elapsed_time(state, #[trigger] readings[i])
                > state.limits.max_duration,
    ensures
        exists|n: nat| n < readings.len() && #[trigger] check_refused(state, readings, n),
{
    if forall|n: nat| n < readings.len() ==> !#[trigger] check_refused(state, readings, n) {
        let due: nat = if state.counter as nat >= 65_530 {
            (65_535 - state.counter) as nat
        } else {
            (9 - state.counter as nat % 10) as nat
        };
        lemma_unrefused_checks_count(state, readings, due);
        assert(!check_refused(state, readings, due));
        assert(elapsed_time(state, readings[due as int]) > state.limits.max_duration);
    }
}

/// Checks that are not refused only count.
proof fn lemma_unrefused_checks_count(state: TrackerView, readings: Seq<nat>, n: nat)
    requires
        n < readings.len() <= TIME_CHECK_INTERVAL,
        forall|i: nat| i < readings.len() ==> !#[trigger] check_refused(state, readings, i),
    ensures
        after_time_checks(state, readings, n) == (TrackerView {
            counter: after_time_checks(state, readings, n).counter,
            ..state
        }),
        after_time_checks(state, readings, n).counter as nat == (state.counter as nat + n) % 65_536,
    decreases n,
{
    if n > 0 {
        lemma_unrefused_checks_count(state, readings, (n - 1) as nat);
        assert(!check_refused(state, readings, (n - 1) as nat));
    }
}

/// A time check that found the limit exceeded fails again at once: the next
/// check reads the clock and is refused too, as the time only grows.
pub proof fn law_time_refusal_repeats(state: TrackerView, running: nat, later: nat)
    requires
        time_refusal(state, running) matches Some(ResourceErrorView::Time { .. }),
        later >= running,
    ensures
        time_refusal(time_checked(state, running), later) is Some,
{
}

/// The clock runs only inside execution windows: a window adds exactly the
/// time from its start to its end, up to the longest duration there is, and
/// outside of one the elapsed time stands still.
pub proof fn law_only_windows_use_time(state: TrackerView, start: nat, end: nat, later: nat)
    requires
        state.running_since is None,
    ensures
        ({
            let open = started(state, start);
            let after = stopped(open, window(open, end));
            &&& after.running_since is None
            &&& elapsed_time(open, window(open, end)) == saturated(
                elapsed_time(state, 0) + between(start, end),
            )
            &&& elapsed_time(after, window(after, later)) == elapsed_time(open, window(open, end))
        }),
        stopped(state, window(state, later)) == state,
        elapsed_time(state, window(state, later)) == elapsed_time(state, 0),
{
}

/// A fresh budget starts at nothing and counts from the moment it was given:
/// whatever was used before is forgotten, even time that went out of range, and
/// an open window stays open.
pub proof fn law_new_budget_starts_over(state: TrackerView, limit: nat, now: nat, later: nat)
    requires
        now <= later <= MAX_NANOS,
    ensures
        ({
            let after = rebudgeted(state, limit, now);
            &&& after.limits.max_duration == limit
            &&& after.running_since is Some == state.running_since is Some
            &&& elapsed_time(after, window(after, later)) == (if state.running_since is Some {
                (later - now) as nat
            } else {
                0
            })
            &&& later - now <= limit ==> time_refusal(after, window(after, later)) is None
            &&& after.count == state.count && after.memory == state.memory
            &&& recursion_limit(after) == recursion_limit(state)
        }),
{
}

/// A loaded session resumes its budget where it was saved: the same time has
/// elapsed, and every charge and check comes out as it would have.
pub proof fn law_saved_session_resumes_its_budget(
    saved: TrackerView,
    loaded: TrackerView,
    bytes: nat,
    depth: nat,
    running: nat,
)
    requires
        loaded == (TrackerView { running_since: None, clock: loaded.clock, ..saved }),
    ensures
        elapsed_time(loaded, running) == elapsed_time(saved, running),
        time_refusal(loaded, running) == time_refusal(saved, running),
        allocation_refusal(loaded, bytes) == allocation_refusal(saved, bytes),
        memory_refusal(loaded, bytes) == memory_refusal(saved, bytes),
        depth_refusal(loaded, depth) == depth_refusal(saved, depth),
{
}

/// The recursion ceiling can only come down: a lower one refuses every depth
/// the higher one did.
pub proof fn law_lowered_ceiling_is_stricter(state: TrackerView, limit: nat, depth: nat)
    requires
        limit <= recursion_limit(state),
    ensures
        recursion_limit(TrackerView { recursion: Some(limit), ..state }) <= recursion_limit(state),
        depth_refusal(state, depth) is Some ==> depth_refusal(
            TrackerView { recursion: Some(limit), ..state },
            depth,
        ) is Some,
{
}

} // verus!
