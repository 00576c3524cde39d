use monty_guardrails::limits::{
    narrow_usize, ResourceLimits, WireLimits, DEFAULT_GC_INTERVAL, DEFAULT_MAX_ALLOCATIONS,
    DEFAULT_MAX_DURATION_SECS, DEFAULT_MAX_MEMORY, DEFAULT_MAX_RECURSION_DEPTH,
};
use monty_guardrails::resource::{
    time_message, unrepresentable_time_message, ExcType, ResourceError, RunError,
};
use monty_guardrails::sizes::{
    check_div_size, check_estimated_size, check_lshift_size, check_mult_size, check_pow_size,
    check_repeat_size, check_replace_size, estimate_bits_to_bytes, LARGE_RESULT_THRESHOLD,
};
use monty_guardrails::time::Duration;
use monty_guardrails::tracker::ResourceTracker;

fn limits() -> ResourceLimits {
    ResourceLimits::new()
}

fn memory(limit: usize) -> ResourceTracker {
    ResourceTracker::new(limits().max_memory(limit))
}

fn secs(secs: u64) -> Duration {
    Duration::from_secs(secs)
}

#[test]
fn defaults_are_finite() {
    let limits = ResourceLimits::default();
    assert_eq!(limits.max_memory, 100_000_000);
    assert_eq!(limits.max_memory, DEFAULT_MAX_MEMORY);
    assert_eq!(limits.max_allocations, DEFAULT_MAX_ALLOCATIONS);
    assert_eq!(limits.max_allocations, 10_000_000);
    assert_eq!(limits.max_duration, secs(DEFAULT_MAX_DURATION_SECS));
    assert_eq!(limits.max_duration, secs(60));
    assert_eq!(limits.gc_interval, DEFAULT_GC_INTERVAL);
    assert_eq!(limits.max_recursion_depth, DEFAULT_MAX_RECURSION_DEPTH);
    assert_eq!(limits.max_recursion_depth, 1000);
    let changed = limits
        .max_allocations(1)
        .max_duration(secs(2))
        .max_memory(3)
        .gc_interval(4)
        .max_recursion_depth(5);
    assert_eq!(
        changed,
        ResourceLimits {
            max_allocations: 1,
            max_duration: secs(2),
            max_memory: 3,
            gc_interval: 4,
            max_recursion_depth: 5,
        }
    );
    assert_eq!(ResourceTracker::default().max_duration(), secs(60));
    assert_eq!(ResourceTracker::default_limits().gc_interval(), 100_000);
}

#[test]
fn limits_survive_the_wire() {
    let limits = limits().max_memory(12_345).max_duration(Duration::new(1, 2_003_004));
    let wire = WireLimits::from(&limits);
    assert_eq!(wire.max_duration_micros, Some(1_002_003));
    assert_eq!(wire.max_memory_bytes, Some(12_345));
    let back = ResourceLimits::from(wire);
    assert_eq!(back, limits.max_duration(Duration::new(1, 2_003_000)));
    // a duration beyond the wire's range is held at its end
    let endless = WireLimits::from(&limits.max_duration(Duration::max_value()));
    assert_eq!(endless.max_duration_micros, Some(u64::MAX));
    let empty = WireLimits {
        max_allocations: None,
        max_duration_micros: None,
        max_memory_bytes: None,
        gc_interval: None,
        max_recursion_depth: None,
    };
    assert_eq!(ResourceLimits::from(empty), ResourceLimits::default());
    assert_eq!(narrow_usize(7), 7);
    assert_eq!(narrow_usize(u64::MAX), usize::MAX);
}

#[test]
fn allocations_are_charged_up_to_both_limits() {
    let mut tracker = ResourceTracker::new(limits().max_allocations(2).max_memory(100));
    assert_eq!(tracker.on_allocate(|| 60), Ok(()));
    assert_eq!(
        tracker.on_allocate(|| 41),
        Err(ResourceError::Memory { limit: 100, used: 101 })
    );
    // a refused charge leaves nothing behind
    assert_eq!((tracker.allocation_count(), tracker.current_memory()), (1, 60));
    assert_eq!(
        tracker.on_allocate(|| usize::MAX),
        Err(ResourceError::MemoryUnrepresentable { limit: 100 })
    );
    assert_eq!(tracker.on_allocate(|| 40), Ok(()));
    // the count is checked first: the size is not even asked for
    assert_eq!(
        tracker.on_allocate(|| panic!("size of a refused allocation")),
        Err(ResourceError::Allocation { limit: 2, count: 3 })
    );
    tracker.on_free(|| 30);
    assert_eq!((tracker.allocation_count(), tracker.current_memory()), (2, 70));
    tracker.on_free(|| 1000);
    assert_eq!(tracker.current_memory(), 0);
}

#[test]
fn an_unrepresentable_count_is_refused() {
    let mut tracker =
        ResourceTracker::restored(limits().max_allocations(usize::MAX), usize::MAX, 0).unwrap();
    assert_eq!(
        tracker.on_allocate(|| 0),
        Err(ResourceError::AllocationUnrepresentable { limit: usize::MAX })
    );
}

#[test]
fn growth_is_charged() {
    let mut tracker = memory(10);
    assert_eq!(tracker.on_grow(10), Ok(()));
    assert_eq!(tracker.on_grow(1), Err(ResourceError::Memory { limit: 10, used: 11 }));
    assert_eq!(
        tracker.on_grow(usize::MAX),
        Err(ResourceError::MemoryUnrepresentable { limit: 10 })
    );
    assert_eq!(tracker.current_memory(), 10);
    assert_eq!(tracker.allocation_count(), 0);
}

#[test]
fn a_restored_heap_must_fit() {
    let small = limits().max_allocations(5).max_memory(50);
    let tracker = ResourceTracker::restored(small, 5, 50).unwrap();
    assert_eq!((tracker.allocation_count(), tracker.current_memory()), (5, 50));
    assert_eq!(tracker.elapsed(), Duration::zero());
    assert!(matches!(
        ResourceTracker::restored(small, 6, 51),
        Err(ResourceError::Allocation { limit: 5, count: 6 })
    ));
    assert!(matches!(
        ResourceTracker::restored(small, 5, 51),
        Err(ResourceError::Memory { limit: 50, used: 51 })
    ));
}

#[test]
fn time_is_checked_every_tenth_time() {
    let mut tracker = ResourceTracker::new(limits().max_duration(secs(1)));
    tracker.on_execution_start_at(secs(2));
    for _ in 0..9 {
        assert!(!tracker.is_time_check_due());
        assert_eq!(tracker.check_time_at(secs(7)), Ok(()));
    }
    assert!(tracker.is_time_check_due());
    let refused = Err(ResourceError::Time { limit: secs(1), elapsed: secs(5) });
    assert_eq!(tracker.check_time_at(secs(7)), refused);
    // once exceeded, every further check fails
    assert_eq!(tracker.check_time_at(secs(7)), refused);
    assert_eq!(tracker.check_time_at(secs(7)), refused);
}

#[test]
fn no_time_at_all_is_checked_every_time() {
    let mut tracker = ResourceTracker::new(limits().max_duration(Duration::zero()));
    // without an open window no time passes
    assert_eq!(tracker.check_time(), Ok(()));
    assert_eq!(tracker.check_time_at(secs(9)), Ok(()));
    tracker.on_execution_start_at(secs(1));
    assert_eq!(
        tracker.check_time_at(secs(1).saturating_add(&Duration::from_micros(1))),
        Err(ResourceError::Time {
            limit: Duration::zero(),
            elapsed: Duration::from_micros(1),
        })
    );
    tracker.on_execution_stop();
    tracker.on_execution_start();
    std::hint::black_box(vec![0u8; 1 << 16]);
    assert!(matches!(tracker.check_time(), Err(ResourceError::Time { .. })));
}

#[test]
fn time_that_cannot_be_represented_is_refused() {
    let mut tracker = ResourceTracker::new(limits().max_duration(Duration::zero()));
    tracker.on_execution_start_at(Duration::zero());
    tracker.on_execution_stop_at(secs(1));
    let refused = Err(ResourceError::TimeUnrepresentable { limit: Duration::zero() });
    tracker.on_execution_start_at(Duration::zero());
    assert_eq!(tracker.check_time_at(Duration::max_value()), refused);
    assert_eq!(tracker.elapsed_at(secs(2)), secs(3));
    tracker.on_execution_stop_at(Duration::max_value());
    assert_eq!(tracker.elapsed(), Duration::max_value());
    assert_eq!(tracker.check_time(), refused);
    // an exceeded limit is noticed within ten checks here too
    tracker.set_max_duration(secs(3));
    tracker.on_execution_start_at(Duration::zero());
    tracker.on_execution_stop_at(Duration::max_value());
    tracker.on_execution_start_at(Duration::zero());
    tracker.on_execution_stop_at(secs(1));
    assert!((0..10).any(|_| tracker.check_time().is_err()));
    // a fresh budget starts over
    tracker.set_max_duration(secs(3));
    assert_eq!(tracker.elapsed(), Duration::zero());
    assert_eq!(tracker.max_duration(), secs(3));
}

#[test]
fn a_new_budget_counts_from_when_it_is_given() {
    let mut tracker = ResourceTracker::new(limits().max_duration(secs(100)));
    tracker.on_allocate(|| 8).unwrap();
    tracker.on_execution_start_at(secs(10));
    tracker.set_max_duration_at(secs(5), secs(40));
    assert_eq!(tracker.elapsed_at(secs(40)), Duration::zero());
    assert_eq!(tracker.elapsed_at(secs(43)), secs(3));
    assert_eq!((tracker.allocation_count(), tracker.current_memory()), (1, 8));
    // the window stays open
    tracker.on_execution_stop_at(secs(44));
    assert_eq!(tracker.elapsed(), secs(4));
    tracker.set_max_duration_at(secs(6), secs(50));
    assert_eq!((tracker.elapsed(), tracker.max_duration()), (Duration::zero(), secs(6)));
}

#[test]
fn only_execution_windows_use_time() {
    let mut tracker = ResourceTracker::default();
    tracker.on_execution_stop();
    assert_eq!(tracker.elapsed(), Duration::zero());
    tracker.on_execution_start_at(secs(5));
    tracker.on_execution_stop_at(secs(7));
    tracker.on_execution_start_at(secs(20));
    assert_eq!(tracker.elapsed_at(secs(24)), secs(6));
    tracker.on_execution_stop_at(secs(23));
    tracker.on_execution_stop_at(secs(100));
    assert_eq!(tracker.elapsed(), secs(5));
    // a real window takes some time
    tracker.on_execution_start();
    std::hint::black_box(vec![0u8; 1 << 16]);
    tracker.on_execution_stop();
    assert!(tracker.elapsed().exceeds(&secs(5)));
    assert!(!tracker.elapsed().exceeds(&secs(3600)));
}

#[test]
fn a_saved_session_resumes_its_budget() {
    let mut tracker = ResourceTracker::new(limits().max_duration(secs(10)).max_memory(100));
    tracker.on_allocate(|| 30).unwrap();
    tracker.on_execution_start_at(secs(1));
    tracker.on_execution_stop_at(secs(8));
    tracker.lower_recursion_limit(3).unwrap();
    tracker.on_execution_start();
    let saved = tracker.snapshot();
    let mut loaded = ResourceTracker::from_snapshot(saved);
    assert_eq!(loaded.elapsed(), secs(7));
    assert_eq!((loaded.allocation_count(), loaded.current_memory()), (1, 30));
    assert_eq!(loaded.active_recursion_limit(), 3);
    assert_eq!(loaded.on_grow(71), Err(ResourceError::Memory { limit: 100, used: 101 }));
    // the open window is not part of what was saved
    loaded.on_execution_start();
    assert_eq!(ResourceTracker::from_snapshot(saved).snapshot(), saved);
}

#[test]
fn recursion_is_bounded_and_only_comes_down() {
    let mut tracker = ResourceTracker::default();
    assert_eq!(tracker.check_recursion_depth(999), Ok(()));
    assert_eq!(
        tracker.check_recursion_depth(1000),
        Err(ResourceError::Recursion { limit: 1000, depth: 1001 })
    );
    assert_eq!(
        tracker.check_recursion_depth(usize::MAX),
        Err(ResourceError::RecursionUnrepresentable { limit: 1000 })
    );
    assert_eq!(tracker.lower_recursion_limit(1001), Err(Some(1000)));
    assert_eq!(tracker.lower_recursion_limit(10), Ok(()));
    assert_eq!(tracker.lower_recursion_limit(11), Err(Some(10)));
    assert_eq!(tracker.active_recursion_limit(), 10);
    assert_eq!(
        tracker.check_recursion_depth(10),
        Err(ResourceError::Recursion { limit: 10, depth: 11 })
    );
}

#[test]
fn large_results_are_refused_before_they_are_built() {
    let tracker = memory(200_000);
    assert_eq!(check_repeat_size(1, 200_000, &tracker), Ok(()));
    assert_eq!(
        check_repeat_size(2, 100_001, &tracker),
        Err(ResourceError::Memory { limit: 200_000, used: 200_002 })
    );
    assert_eq!(
        check_repeat_size(usize::MAX, 2, &tracker),
        Err(ResourceError::Memory { limit: 200_000, used: usize::MAX })
    );
    // small results are not checked at all
    let nothing = memory(0);
    assert_eq!(check_estimated_size(LARGE_RESULT_THRESHOLD, &nothing), Ok(()));
    assert_eq!(
        check_estimated_size(LARGE_RESULT_THRESHOLD + 1, &nothing),
        Err(ResourceError::Memory { limit: 0, used: 100_001 })
    );
}

#[test]
fn powers_are_estimated_four_times_over() {
    let tracker = memory(400_000);
    assert_eq!(check_pow_size(1, u64::MAX, &tracker), Ok(()));
    assert_eq!(check_pow_size(0, u64::MAX, &tracker), Ok(()));
    assert_eq!(check_pow_size(8, 100_000, &tracker), Ok(()));
    assert_eq!(
        check_pow_size(8, 100_001, &tracker),
        Err(ResourceError::Memory { limit: 400_000, used: 400_004 })
    );
    assert!(check_pow_size(2, u64::MAX, &tracker).is_err());
}

#[test]
fn products_shifts_and_quotients_are_estimated_in_bits() {
    let tracker = memory(100_001);
    assert_eq!(check_mult_size(400_000, 400_008, &tracker), Ok(()));
    assert_eq!(
        check_mult_size(400_000, 400_009, &tracker),
        Err(ResourceError::Memory { limit: 100_001, used: 100_002 })
    );
    assert_eq!(check_lshift_size(0, u64::MAX, &tracker), Ok(()));
    assert_eq!(
        check_lshift_size(1, 800_008, &tracker),
        Err(ResourceError::Memory { limit: 100_001, used: 100_002 })
    );
    assert!(check_lshift_size(1, u64::MAX, &tracker).is_err());
    assert_eq!(check_div_size(800_008, &tracker), Ok(()));
    assert!(check_div_size(800_009, &tracker).is_err());
    assert_eq!(estimate_bits_to_bytes(0), 0);
    assert_eq!(estimate_bits_to_bytes(1), 1);
    assert_eq!(estimate_bits_to_bytes(8), 1);
    assert_eq!(estimate_bits_to_bytes(9), 2);
    assert_eq!(estimate_bits_to_bytes(u64::MAX), (u64::MAX / 8) as usize);
}

#[test]
fn replacements_are_estimated_at_their_most() {
    let tracker = memory(0);
    let used = |result: Result<(), ResourceError>| match result {
        Err(ResourceError::Memory { used, .. }) => used,
        _ => panic!("expected a refusal"),
    };
    // every byte replaced
    assert_eq!(used(check_replace_size(1000, 1, 10_000_000, -1, &tracker)), 10_000_000_000);
    // at most `count` of them
    assert_eq!(used(check_replace_size(1000, 1, 10_000_000, 2, &tracker)), 20_000_998);
    // an empty pattern fits before each byte and after the last
    assert_eq!(used(check_replace_size(1000, 0, 1000, -1, &tracker)), 1_002_000);
    // whole patterns only: what is left over stays
    assert_eq!(used(check_replace_size(1_000_001, 10, 20, -1, &tracker)), 2_000_001);
    assert_eq!(check_replace_size(1_000_000, 1, 0, -1, &tracker), Ok(()));
    assert_eq!(check_replace_size(10, 1, 1, 0, &tracker), Ok(()));
}

#[test]
fn errors_read_as_a_person_expects() {
    let cases = [
        (
            ResourceError::Allocation { limit: 2, count: 3 },
            "allocation limit exceeded: 3 > 2",
            ExcType::MemoryError,
        ),
        (
            ResourceError::AllocationUnrepresentable { limit: 2 },
            "allocation limit exceeded: attempted count is unrepresentable (limit: 2)",
            ExcType::MemoryError,
        ),
        (
            ResourceError::Time { limit: secs(1), elapsed: Duration::new(1, 500_000_000) },
            "time limit exceeded: 1.5s > 1s",
            ExcType::TimeoutError,
        ),
        (
            ResourceError::TimeUnrepresentable { limit: Duration::from_micros(20_000) },
            "time limit exceeded: attempted duration is unrepresentable (limit: 20ms)",
            ExcType::TimeoutError,
        ),
        (
            ResourceError::Memory { limit: 100, used: 1_000_000 },
            "memory limit exceeded: 1000000 bytes > 100 bytes",
            ExcType::MemoryError,
        ),
        (
            ResourceError::MemoryUnrepresentable { limit: 100 },
            "memory limit exceeded: attempted usage is unrepresentable (limit: 100 bytes)",
            ExcType::MemoryError,
        ),
        (
            ResourceError::Recursion { limit: 1, depth: 2 },
            "maximum recursion depth exceeded",
            ExcType::RecursionError,
        ),
        (
            ResourceError::RecursionUnrepresentable { limit: 1 },
            "maximum recursion depth exceeded",
            ExcType::RecursionError,
        ),
    ];
    for (error, text, exc_type) in cases {
        assert_eq!(error.message(), text);
        let raised = error.into_exception(Some(17u8));
        assert_eq!((raised.exc_type, raised.frame), (exc_type, Some(17)));
        assert_eq!(raised.message, text);
        let catchable = exc_type == ExcType::RecursionError;
        match RunError::<u8>::from(error) {
            RunError::Exc(raised) => {
                assert!(catchable);
                assert_eq!((raised.message.as_str(), raised.frame), (text, None));
            }
            RunError::UncatchableExc(raised) => {
                assert!(!catchable);
                assert_eq!((raised.exc_type, raised.frame), (exc_type, None));
            }
        }
    }
}

#[test]
fn time_errors_carry_the_durations_they_are_given() {
    assert_eq!(time_message("a", "b"), "time limit exceeded: a > b");
    assert_eq!(
        unrepresentable_time_message("c"),
        "time limit exceeded: attempted duration is unrepresentable (limit: c)"
    );
}

#[test]
fn a_first_window_is_always_representable() {
    let mut tracker = ResourceTracker::new(limits().max_duration(Duration::zero()));
    tracker.on_execution_start();
    for _ in 0..3 {
        assert!(!matches!(
            tracker.check_time(),
            Err(ResourceError::TimeUnrepresentable { .. })
        ));
    }
}

#[test]
fn durations_add_and_print() {
    assert_eq!(Duration::new(1, 1_500_000_000), Duration::new(2, 500_000_000));
    assert_eq!(Duration::from_micros(1_000_001).as_micros(), 1_000_001);
    assert_eq!(Duration::from_micros(1_000_001).subsec_nanos(), 1000);
    assert_eq!(secs(1).checked_add(&secs(2)), Some(secs(3)));
    assert_eq!(Duration::max_value().checked_add(&Duration::new(0, 1)), None);
    assert_eq!(Duration::max_value().saturating_add(&secs(1)), Duration::max_value());
    assert_eq!(Duration::max_value().as_secs(), u64::MAX);
    assert_eq!(secs(5).since(&secs(2)), secs(3));
    assert_eq!(secs(2).since(&secs(5)), Duration::zero());
    assert!(Duration::zero().is_zero() && !secs(1).is_zero());
    assert_eq!(Duration::from_micros(7).debug_text(), "7µs");
    assert_eq!(Duration::zero().debug_text(), "0ns");
}
