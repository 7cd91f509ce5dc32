use particle_life::pipeline::{
    BinBuffer, BindGroupCache, BindGroupKey, PingPong, StepPhase, offsets_buffer_after,
    slot_counter_buffer_after, step_schedule,
};

#[test]
fn test_offsets_buffer_parity() {
    assert_eq!(offsets_buffer_after(0), BinBuffer::A);
    assert_eq!(offsets_buffer_after(1), BinBuffer::B);
    assert_eq!(offsets_buffer_after(2), BinBuffer::A);
    assert_eq!(offsets_buffer_after(11), BinBuffer::B);
    for passes in 0..8 {
        assert_ne!(offsets_buffer_after(passes), slot_counter_buffer_after(passes));
    }
}

#[test]
fn test_phase_sequence() {
    // With three prefix passes the step visits every phase once and
    // returns to idle.
    let passes = 3;
    let mut phase = StepPhase::Idle;
    let mut trace = Vec::new();
    loop {
        phase = phase.next(passes);
        trace.push(phase);
        if phase == StepPhase::Idle {
            break;
        }
    }
    assert_eq!(
        trace,
        vec![
            StepPhase::Clear,
            StepPhase::Count,
            StepPhase::Prefix(0),
            StepPhase::Prefix(1),
            StepPhase::Prefix(2),
            StepPhase::ClearForSort,
            StepPhase::Sort,
            StepPhase::Forces,
            StepPhase::Advance,
            StepPhase::Idle,
        ]
    );
}

#[test]
fn test_phase_sequence_no_prefix_passes() {
    assert_eq!(StepPhase::Count.next(0), StepPhase::ClearForSort);
    assert_eq!(StepPhase::Count.next(1), StepPhase::Prefix(0));
    assert_eq!(StepPhase::Prefix(0).next(1), StepPhase::ClearForSort);
}

#[test]
fn test_ping_pong_swaps_once_per_step() {
    let mut buffers = PingPong::new();
    assert_eq!(buffers.current(), 0);
    assert_eq!(buffers.next(), 1);
    buffers.swap();
    assert_eq!(buffers.current(), 1);
    assert_eq!(buffers.next(), 0);
    buffers.swap();
    assert_eq!(buffers.current(), 0);
}

#[test]
fn test_bind_group_cache_rebuild_on_key_change() {
    let mut cache = BindGroupCache::new();
    let key1 = BindGroupKey { pass_count: 4, buffer_generation: 1 };
    let key2 = BindGroupKey { pass_count: 4, buffer_generation: 2 };
    let key3 = BindGroupKey { pass_count: 5, buffer_generation: 2 };

    // First use always builds.
    assert!(cache.ensure(key1));
    assert!(!cache.ensure(key1));
    assert!(cache.is_valid_for(key1));

    // Recreating buffers bumps the generation: stale bindings are rebuilt.
    assert!(cache.ensure(key2));
    assert!(!cache.is_valid_for(key1));

    // A changed pass count (new grid size) also rebuilds.
    assert!(cache.ensure(key3));
    assert!(!cache.ensure(key3));

    // Teardown invalidates: nothing is served until the next ensure.
    cache.invalidate();
    assert!(!cache.is_valid_for(key3));
    assert!(cache.ensure(key3));
}

#[test]
fn test_step_schedule_matches_transition_walk() {
    let passes = 2;
    let schedule = step_schedule(passes);
    assert_eq!(
        schedule,
        vec![
            StepPhase::Clear,
            StepPhase::Count,
            StepPhase::Prefix(0),
            StepPhase::Prefix(1),
            StepPhase::ClearForSort,
            StepPhase::Sort,
            StepPhase::Forces,
            StepPhase::Advance,
        ]
    );
    // The schedule is exactly the walk of the transition function.
    let mut phase = StepPhase::Idle;
    for &entry in &schedule {
        phase = phase.next(passes);
        assert_eq!(phase, entry);
    }
    assert_eq!(phase.next(passes), StepPhase::Idle);
}
