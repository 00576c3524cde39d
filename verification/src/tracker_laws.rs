//! What the accounting of a session amounts to, in plain numbers: when a charge
//! or a check is refused, what the refusal reports, and how execution windows add
//! up.

use crate::limits::LimitsView;
use crate::resource::ResourceErrorView;
use crate::time::{Clock, MAX_NANOS};
use crate::tracker::{
    allocated, allocation_refusal, depth_refusal, elapsed_time, freed, fresh, grown, holding, lowered,
    memory_refusal, rebudgeted, recursion_limit, restore_refusal, resumed, started, stopped, time_checked,
    time_refusal, window, TrackerSnapshot, TrackerView,
};
use vstd::prelude::*;

verus! {

/// Whether the limits are ones that can be configured.
pub open spec fn countable(limits: LimitsView) -> bool {
    limits.max_allocations <= usize::MAX && limits.max_memory <= usize::MAX
        && limits.max_recursion_depth <= usize::MAX && limits.max_duration <= MAX_NANOS
}

/// A time check goes by the elapsed time and nothing else, whichever windows it
/// was used in: time within the budget is never refused, and a refusal reports
/// the budget and an elapsed time beyond it.
pub proof fn law_time_within_the_budget_is_accepted(state: TrackerView, now: nat)
    requires
        !state.overflowed,
        state.total + window(state, now) <= MAX_NANOS,
    ensures
        ({
            let elapsed = elapsed_time(state, window(state, now));
            let refused = time_refusal(state, window(state, now));
            &&& elapsed <= state.limits.max_duration ==> refused is None
            &&& refused matches Some(error) ==> {
                &&& error == ResourceErrorView::Time { limit: state.limits.max_duration, elapsed }
                &&& elapsed > state.limits.max_duration
            }
        }),
{
}

/// Every tenth check reads the clock, and finds time beyond the budget; with no
/// budget at all each check does. The checks between are never refused.
pub proof fn law_clock_is_read_every_tenth_check(state: TrackerView, now: nat)
    requires
        !state.overflowed,
        state.total + window(state, now) <= MAX_NANOS,
        state.counter < 65_535,
    ensures
        ({
            let elapsed = elapsed_time(state, window(state, now));
            let refused = time_refusal(state, window(state, now));
            let after = time_checked(state, window(state, now));
            &&& (state.counter + 1) % 10 == 0 || state.limits.max_duration == 0 ==> (refused is Some
                <==> elapsed > state.limits.max_duration)
            &&& (state.counter + 1) % 10 != 0 && state.limits.max_duration > 0 ==> refused is None
            &&& refused is None ==> after.counter == state.counter + 1
            &&& refused is Some ==> (after.counter + 1) % 10 == 0
            &&& after == TrackerView { counter: after.counter, ..state }
        }),
{
}

/// The time that windows of execution take together.
pub open spec fn time_in(windows: Seq<(nat, nat)>) -> int
    decreases windows.len(),
{
    if windows.len() == 0 {
        0
    } else {
        time_in(windows.drop_last()) + (windows.last().1 - windows.last().0)
    }
}

/// The tracker after execution ran in each of the windows in turn.
pub open spec fn after_windows(state: TrackerView, windows: Seq<(nat, nat)>) -> TrackerView
    decreases windows.len(),
{
    if windows.len() == 0 {
        state
    } else {
        let open = started(after_windows(state, windows.drop_last()), windows.last().0);
        stopped(open, window(open, windows.last().1))
    }
}

/// Whether every window ends no earlier than it starts.
pub open spec fn forward(windows: Seq<(nat, nat)>) -> bool {
    forall|i: int| 0 <= i < windows.len() ==> (#[trigger] windows[i]).0 <= windows[i].1
}

proof fn lemma_windows(state: TrackerView, windows: Seq<(nat, nat)>)
    requires
        forward(windows),
        state.running_since is None,
        !state.overflowed,
        state.total + time_in(windows) <= MAX_NANOS,
    ensures
        0 <= time_in(windows),
        after_windows(state, windows) == (TrackerView {
            total: (state.total + time_in(windows)) as nat,
            ..state
        }),
    decreases windows.len(),
{
    if windows.len() > 0 {
        let before = windows.drop_last();
        assert(windows.last().0 <= windows.last().1);
        assert forall|i: int| 0 <= i < before.len() implies (#[trigger] before[i]).0
            <= before[i].1 by {
            assert(before[i] == windows[i]);
        }
        lemma_windows(state, before);
    }
}

/// Execution time is cumulative: after any windows of execution, and in one more
/// that is open, a session has used the sum of their lengths, the pauses between
/// them left out, and a check that reads the clock is refused if and only if that
/// sum is beyond the budget.
pub proof fn law_windows_add_up(
    limits: LimitsView,
    clock: Clock,
    windows: Seq<(nat, nat)>,
    start: nat,
    now: nat,
    counter: u16,
)
    requires
        forward(windows),
        start <= now,
        time_in(windows) + (now - start) <= MAX_NANOS,
        (counter + 1) % 10 == 0,
    ensures
        ({
            let open = started(
                after_windows(TrackerView { counter, ..fresh(limits, clock) }, windows),
                start,
            );
            let used = time_in(windows) + (now - start);
            let refused = time_refusal(open, window(open, now));
            &&& elapsed_time(open, window(open, now)) == used
            &&& refused == (if used > limits.max_duration {
                Some(
                    ResourceErrorView::Time { limit: limits.max_duration, elapsed: used as nat },
                )
            } else {
                None
            })
        }),
{
    lemma_windows(TrackerView { counter, ..fresh(limits, clock) }, windows);
}

/// Execution time that went out of range is not forgotten: the session reads as
/// having used all the time there is, and every check that reads the clock is
/// refused, until it is given a fresh budget.
pub proof fn law_time_out_of_range_stays(
    state: TrackerView,
    end: nat,
    start: nat,
    later: nat,
    budget: nat,
    counter: u16,
)
    requires
        state.running_since matches Some(begun) && begun <= end && state.total + (end - begun)
            > MAX_NANOS || (state.running_since is Some && state.overflowed),
        state.total <= MAX_NANOS,
        (counter + 1) % 10 == 0,
    ensures
        ({
            let out = TrackerView { counter, ..stopped(state, window(state, end)) };
            let again = started(out, start);
            &&& elapsed_time(again, window(again, later)) == 18_446_744_073_709_551_615_999_999_999
            &&& time_refusal(again, window(again, later)) == Some(
                ResourceErrorView::TimeUnrepresentable { limit: state.limits.max_duration },
            )
            &&& stopped(again, window(again, later)).overflowed
            &&& elapsed_time(rebudgeted(out, budget, later), 0) == 0
        }),
{
}

/// An allocation is accepted if and only if it leaves both the number of
/// allocations and the memory within their limits. A refusal reports the limit
/// that is in the way and what the allocation would have come to, the number
/// before the memory.
pub proof fn law_allocation_is_refused_by_what_it_exceeds(state: TrackerView, bytes: nat)
    requires
        countable(state.limits),
    ensures
        ({
            let refused = allocation_refusal(state, bytes);
            let after = allocated(state, bytes);
            &&& refused is None <==> state.count + 1 <= state.limits.max_allocations && state.memory
                + bytes <= state.limits.max_memory
            &&& state.limits.max_allocations < state.count + 1 <= usize::MAX ==> refused == Some(
                ResourceErrorView::Allocation {
                    limit: state.limits.max_allocations,
                    count: state.count + 1,
                },
            )
            &&& state.count + 1 > usize::MAX ==> refused == Some(
                ResourceErrorView::AllocationUnrepresentable {
                    limit: state.limits.max_allocations,
                },
            )
            &&& state.count + 1 <= state.limits.max_allocations ==> refused == memory_refusal(
                state,
                bytes,
            )
            &&& refused is None ==> after == TrackerView {
                count: state.count + 1,
                memory: state.memory + bytes,
                ..state
            }
            &&& refused is Some ==> after == state
        }),
{
}

/// More memory is accepted if and only if what is in use and what is asked for
/// are together within the limit. A refusal reports the limit and that sum, where
/// it can be counted at all.
pub proof fn law_memory_is_refused_beyond_its_limit(state: TrackerView, bytes: nat)
    requires
        countable(state.limits),
    ensures
        ({
            let refused = memory_refusal(state, bytes);
            let after = grown(state, bytes);
            &&& refused is None <==> state.memory + bytes <= state.limits.max_memory
            &&& state.limits.max_memory < state.memory + bytes <= usize::MAX ==> refused == Some(
                ResourceErrorView::Memory {
                    limit: state.limits.max_memory,
                    used: state.memory + bytes,
                },
            )
            &&& state.memory + bytes > usize::MAX ==> refused == Some(
                ResourceErrorView::MemoryUnrepresentable { limit: state.limits.max_memory },
            )
            &&& refused is None ==> after == TrackerView { memory: state.memory + bytes, ..state }
            &&& refused is Some ==> after == state
        }),
{
}

/// Freeing takes off exactly what was freed, and never more than is in use;
/// nothing else of the accounting changes.
pub proof fn law_free_takes_off_what_was_freed(state: TrackerView, bytes: nat)
    ensures
        bytes <= state.memory ==> freed(state, bytes).memory + bytes == state.memory,
        bytes > state.memory ==> freed(state, bytes).memory == 0,
        freed(state, bytes) == (TrackerView { memory: freed(state, bytes).memory, ..state }),
{
}

/// A frame may be pushed if and only if the stack stays within the ceiling, which
/// is the configured one until it is lowered. A refusal reports the ceiling and
/// the depth that the push would have come to.
pub proof fn law_depth_is_refused_beyond_the_ceiling(state: TrackerView, depth: nat, lowered: nat)
    requires
        countable(state.limits),
        lowered <= usize::MAX,
    ensures
        ({
            let configured = TrackerView { recursion: None, ..state };
            let below = TrackerView { recursion: Some(lowered), ..state };
            &&& recursion_limit(configured) == state.limits.max_recursion_depth
            &&& recursion_limit(below) == lowered
            &&& depth_refusal(configured, depth) is None <==> depth + 1
                <= state.limits.max_recursion_depth
            &&& depth_refusal(below, depth) is None <==> depth + 1 <= lowered
            &&& lowered < depth + 1 <= usize::MAX ==> depth_refusal(below, depth) == Some(
                ResourceErrorView::Recursion { limit: lowered, depth: depth + 1 },
            )
            &&& state.limits.max_recursion_depth < depth + 1 <= usize::MAX ==> depth_refusal(
                configured,
                depth,
            ) == Some(
                ResourceErrorView::Recursion {
                    limit: state.limits.max_recursion_depth,
                    depth: depth + 1,
                },
            )
            &&& depth + 1 > usize::MAX ==> depth_refusal(below, depth) == Some(
                ResourceErrorView::RecursionUnrepresentable { limit: lowered },
            )
        }),
{
}

/// A heap is restored if and only if it is within the limits; a refusal reports
/// the limit in the way and what the heap holds, objects before bytes.
pub proof fn law_oversize_heap_is_not_restored(limits: LimitsView, count: nat, memory: nat)
    ensures
        restore_refusal(limits, count, memory) is None <==> count <= limits.max_allocations
            && memory <= limits.max_memory,
        count > limits.max_allocations ==> restore_refusal(limits, count, memory) == Some(
            ResourceErrorView::Allocation { limit: limits.max_allocations, count },
        ),
        count <= limits.max_allocations && memory > limits.max_memory ==> restore_refusal(
            limits,
            count,
            memory,
        ) == Some(ResourceErrorView::Memory { limit: limits.max_memory, used: memory }),
{
}

/// A fresh session has used nothing of its limits, and can use all of them: any
/// allocation, depth or time within them is accepted.
pub proof fn law_fresh_session_has_all_its_limits(
    limits: LimitsView,
    clock: Clock,
    bytes: nat,
    depth: nat,
    start: nat,
    now: nat,
)
    requires
        countable(limits),
        start <= now,
    ensures
        ({
            let state = fresh(limits, clock);
            let open = started(state, start);
            &&& elapsed_time(state, window(state, now)) == 0
            &&& 1 <= limits.max_allocations && bytes <= limits.max_memory ==> allocation_refusal(
                state,
                bytes,
            ) is None
            &&& depth < limits.max_recursion_depth ==> depth_refusal(state, depth) is None
            &&& now - start <= limits.max_duration ==> time_refusal(open, window(open, now)) is None
        }),
{
}

/// A fresh budget forgets the time that was used and nothing else: the limits but
/// the duration, the objects, the memory and the recursion ceiling stay.
pub proof fn law_new_budget_changes_only_the_time(state: TrackerView, limit: nat, now: nat)
    ensures
        ({
            let after = rebudgeted(state, limit, now);
            &&& after.limits == LimitsView { max_duration: limit, ..state.limits }
            &&& after.count == state.count
            &&& after.memory == state.memory
            &&& after.counter == state.counter
            &&& after.recursion == state.recursion
            &&& after.clock == state.clock
            &&& state.running_since is Some ==> after.running_since == Some(now)
            &&& state.running_since is None ==> after.running_since is None
        }),
{
}

/// A loaded session carries on with what the saved one was charged and allowed,
/// and no window is open.
pub proof fn law_loaded_session_keeps_its_charges(snapshot: TrackerSnapshot, clock: Clock)
    ensures
        ({
            let state = resumed(snapshot, clock);
            &&& state.running_since is None
            &&& state.clock == clock
            &&& state.limits.max_allocations == snapshot.limits.max_allocations
            &&& state.limits.max_memory == snapshot.limits.max_memory
            &&& state.limits.max_duration == snapshot.limits.max_duration@
            &&& state.limits.max_recursion_depth == snapshot.limits.max_recursion_depth
            &&& state.limits.gc_interval == snapshot.limits.gc_interval
            &&& state.count == snapshot.allocation_count
            &&& state.memory == snapshot.current_memory
            &&& state.counter == snapshot.check_counter
            &&& state.overflowed == snapshot.execution_time_overflowed
            &&& state.total == snapshot.total_execution_time@
            &&& recursion_limit(state) == (match snapshot.recursion_limit_override {
                Some(limit) => limit,
                None => snapshot.limits.max_recursion_depth,
            })
        }),
{
}

/// A restored heap counts as charged, and nothing else does: no time is used, and
/// what may still be allocated is what the limits leave beside the heap.
pub proof fn law_restored_heap_counts_as_charged(
    limits: LimitsView,
    clock: Clock,
    count: nat,
    memory: nat,
    bytes: nat,
)
    requires
        countable(limits),
    ensures
        ({
            let state = holding(limits, clock, count, memory);
            &&& state.count == count && state.memory == memory
            &&& state.limits == limits && state.clock == clock
            &&& state.running_since is None
            &&& elapsed_time(state, 0) == 0
            &&& recursion_limit(state) == limits.max_recursion_depth
            &&& allocation_refusal(state, bytes) is None <==> count + 1 <= limits.max_allocations
                && memory + bytes <= limits.max_memory
            &&& freed(state, memory).memory == 0
        }),
{
}

/// The ceiling comes down and never goes up: one that is no higher than the one in
/// force takes its place, a higher one is refused with the one in force.
pub proof fn law_ceiling_only_comes_down(state: TrackerView, limit: nat)
    ensures
        limit <= recursion_limit(state) ==> {
            &&& lowered(state, limit) is Ok
            &&& recursion_limit(lowered(state, limit)->Ok_0) == limit
            &&& lowered(state, limit)->Ok_0 == TrackerView {
                recursion: lowered(state, limit)->Ok_0.recursion,
                ..state
            }
        },
        limit > recursion_limit(state) ==> lowered(state, limit) == Err::<TrackerView, nat>(
            recursion_limit(state),
        ),
{
}

/// The count of checks starts over after the last it can hold, with a check that
/// reads the clock; time out of range is refused by every check that reads it, and
/// the checks go on counting.
pub proof fn law_checks_go_on_counting(state: TrackerView, now: nat)
    requires
        state.limits.max_duration > 0,
    ensures
        ({
            let running = window(state, now);
            let refused = time_refusal(state, running);
            let after = time_checked(state, running);
            let reads = state.counter == 65_535 || (state.counter + 1) % 10 == 0;
            let unknown = state.overflowed || state.total + running > MAX_NANOS;
            &&& !reads ==> refused is None
            &&& reads && unknown ==> refused == Some(
                ResourceErrorView::TimeUnrepresentable { limit: state.limits.max_duration },
            )
            &&& reads && !unknown ==> (refused is Some <==> elapsed_time(state, running)
                > state.limits.max_duration)
            &&& (refused is None || unknown) ==> after.counter == (if state.counter == 65_535 {
                0
            } else {
                state.counter + 1
            })
        }),
{
}

} // verus!
