use transitions::{
    use_transition, Easing, Point, StateStore, Transition, TransitionState, PROGRESS_SCALE,
};

#[test]
fn fresh_transition_is_settled() {
    let mut store: StateStore<i64> = StateStore::new();
    let mut tr = use_transition(&mut store, 1000, 42i64);
    // Never updated: evaluation at any time returns the initial goal and
    // asks for no further frame.
    let (value, another_frame) = tr.evaluate(&mut store, 123_456);
    assert_eq!(value, 42);
    assert!(!another_frame);
    assert_eq!(tr.read_cache(), Some(42));
    assert_eq!(*tr.read_goal(&store), 42);
}

#[test]
fn linear_progress_follows_clock() {
    let mut store: StateStore<i64> = StateStore::new();
    let mut tr = use_transition(&mut store, 1000, 0i64);
    tr.update(&mut store, 0, 100);
    // Progress is elapsed over duration, clamped to full.
    assert_eq!(tr.evaluate_delta(&store, 0), 0);
    assert_eq!(tr.evaluate_delta(&store, 250), PROGRESS_SCALE / 4);
    assert_eq!(tr.evaluate_delta(&store, 500), PROGRESS_SCALE / 2);
    assert_eq!(tr.evaluate_delta(&store, 1000), PROGRESS_SCALE);
    assert_eq!(tr.evaluate_delta(&store, 5000), PROGRESS_SCALE);
    // At or past the duration the value settles on the end goal.
    let (value, another_frame) = tr.evaluate(&mut store, 1000);
    assert_eq!(value, 100);
    assert!(!another_frame);
}

#[test]
fn continuous_update_rebases_start() {
    let mut store: StateStore<i64> = StateStore::new();
    let mut tr = use_transition(&mut store, 1000, 0i64);
    tr.update(&mut store, 0, 100);
    // Halfway: the animated value sits at 50.
    let (value, another_frame) = tr.evaluate(&mut store, 500);
    assert_eq!(value, 50);
    assert!(another_frame);
    // Redirect the goal to 200: the new segment starts from 50, not 0.
    let was_updated = tr.update(&mut store, 500, 200);
    assert!(was_updated);
    assert_eq!(store.state(tr.entity_id()).start_goal, 50);
    assert_eq!(store.state(tr.entity_id()).end_goal, 200);
    tr.invalidate_cache();
    let (value, another_frame) = tr.evaluate(&mut store, 500);
    assert_eq!(value, 50);
    assert!(another_frame);
    // And it animates 50 -> 200 over the next second.
    tr.invalidate_cache();
    let (value, _) = tr.evaluate(&mut store, 1000);
    assert_eq!(value, 125);
    tr.invalidate_cache();
    let (value, another_frame) = tr.evaluate(&mut store, 1500);
    assert_eq!(value, 200);
    assert!(!another_frame);
}

#[test]
fn non_continuous_update_restarts_from_start() {
    let mut store: StateStore<i64> = StateStore::new();
    let mut tr = use_transition(&mut store, 1000, 0i64).continuous(false);
    tr.update(&mut store, 0, 100);
    let (value, _) = tr.evaluate(&mut store, 500);
    assert_eq!(value, 50);
    // Redirect the goal to 200: the start is kept, so the animation replays
    // from 0, not from the in-flight 50.
    let was_updated = tr.update(&mut store, 500, 200);
    assert!(was_updated);
    assert_eq!(store.state(tr.entity_id()).start_goal, 0);
    tr.invalidate_cache();
    let (value, another_frame) = tr.evaluate(&mut store, 500);
    assert_eq!(value, 0);
    assert!(another_frame);
    // 0 -> 200 over the next second.
    tr.invalidate_cache();
    let (value, _) = tr.evaluate(&mut store, 1000);
    assert_eq!(value, 100);
    tr.invalidate_cache();
    let (value, another_frame) = tr.evaluate(&mut store, 1500);
    assert_eq!(value, 200);
    assert!(!another_frame);
}

#[test]
fn noop_update_is_suppressed() {
    let mut store: StateStore<i64> = StateStore::new();
    let mut tr = use_transition(&mut store, 1000, 0i64);
    tr.update(&mut store, 0, 100);
    let _ = tr.evaluate(&mut store, 250);
    let before: TransitionState<i64> = *store.state(tr.entity_id());
    // Writing the goal it already has changes nothing under the continuous
    // policy.
    let was_updated = tr.update(&mut store, 400, 100);
    assert!(!was_updated);
    assert_eq!(*store.state(tr.entity_id()), before);
}

#[test]
fn non_continuous_equal_goal_still_restarts() {
    let mut store: StateStore<i64> = StateStore::new();
    let tr = use_transition(&mut store, 1000, 5i64).continuous(false);
    let was_updated = tr.update(&mut store, 300, 5);
    assert!(was_updated);
    assert_eq!(store.state(tr.entity_id()).goal_last_updated_at, Some(300));
}

#[test]
fn reset_is_idempotent_and_settles() {
    let mut store: StateStore<i64> = StateStore::new();
    let mut tr = use_transition(&mut store, 1000, 7i64);
    tr.update(&mut store, 0, 100);
    let _ = tr.evaluate(&mut store, 500);
    tr.reset(&mut store);
    let once: TransitionState<i64> = *store.state(tr.entity_id());
    tr.reset(&mut store);
    let twice: TransitionState<i64> = *store.state(tr.entity_id());
    assert_eq!(once, twice);
    assert_eq!(once.goal_last_updated_at, None);
    assert_eq!(tr.read_cache(), None);
    // Immediately after a reset, evaluation returns the initial goal and no
    // further animation.
    let (value, another_frame) = tr.evaluate(&mut store, 500);
    assert_eq!(value, 7);
    assert!(!another_frame);
}

#[test]
fn cache_makes_same_frame_reads_identical() {
    let mut store: StateStore<i64> = StateStore::new();
    let mut tr = use_transition(&mut store, 1000, 0i64);
    tr.update(&mut store, 0, 100);
    // Two reads within the same frame return the identical value even when
    // the wall clock jitters between the polls.
    let (first, _) = tr.evaluate(&mut store, 500);
    let (second, another_frame) = tr.evaluate(&mut store, 503);
    assert_eq!(first, 50);
    assert_eq!(second, first);
    assert!(!another_frame);
    // The next frame recomputes with the advanced clock.
    tr.invalidate_cache();
    let (third, _) = tr.evaluate(&mut store, 600);
    assert_eq!(third, 60);
}

#[test]
fn caches_are_private_to_each_handle() {
    let mut store: StateStore<i64> = StateStore::new();
    let mut first = use_transition(&mut store, 1000, 0i64);
    let mut second: Transition<i64> = Transition::new(first.entity_id(), 1000);
    first.update(&mut store, 0, 100);
    let (v1, _) = first.evaluate(&mut store, 250);
    let (v2, _) = second.evaluate(&mut store, 500);
    assert_eq!(v1, 25);
    assert_eq!(v2, 50);
    // A stale cache on one handle never corrupts the other's.
    assert_eq!(first.read_cache(), Some(25));
    assert_eq!(second.read_cache(), Some(50));
}

#[test]
fn eased_transition_uses_the_curve() {
    let mut store: StateStore<i64> = StateStore::new();
    let mut tr = use_transition(&mut store, 1000, 0i64).with_easing(Easing::EaseInQuad);
    tr.update(&mut store, 0, 100);
    // Quadratic ease-in: at half time, a quarter of the way.
    assert_eq!(tr.evaluate_delta(&store, 500), PROGRESS_SCALE / 4);
    let (value, another_frame) = tr.evaluate(&mut store, 500);
    assert_eq!(value, 25);
    assert!(another_frame);
}

#[test]
fn evaluate_delta_is_a_pure_read() {
    let mut store: StateStore<i64> = StateStore::new();
    let tr = use_transition(&mut store, 1000, 0i64);
    tr.update(&mut store, 0, 100);
    let before: TransitionState<i64> = *store.state(tr.entity_id());
    let _ = tr.evaluate_delta(&store, 700);
    assert_eq!(*store.state(tr.entity_id()), before);
}

#[test]
fn store_hands_out_stable_handles() {
    let mut store: StateStore<i64> = StateStore::new();
    let a = use_transition(&mut store, 1000, 1i64);
    let b = use_transition(&mut store, 2000, 2i64);
    assert_eq!(store.len(), 2);
    assert_ne!(a.entity_id(), b.entity_id());
    assert_eq!(*a.read_goal(&store), 1);
    assert_eq!(*b.read_goal(&store), 2);
    // Updating one transition leaves the other's state alone.
    a.update(&mut store, 0, 10);
    assert_eq!(*a.read_goal(&store), 10);
    assert_eq!(*b.read_goal(&store), 2);
}

#[test]
fn full_scenario_with_settled_redirect() {
    // Duration 1000 ms, linear easing, goal 0 -> 10, continuous.
    let mut store: StateStore<i64> = StateStore::new();
    let mut tr = use_transition(&mut store, 1000, 0i64);
    tr.update(&mut store, 0, 10);
    let (value, _) = tr.evaluate(&mut store, 0);
    assert_eq!(value, 0);
    tr.invalidate_cache();
    let (value, _) = tr.evaluate(&mut store, 500);
    assert_eq!(value, 5);
    tr.invalidate_cache();
    let (value, another_frame) = tr.evaluate(&mut store, 1000);
    assert_eq!(value, 10);
    assert!(!another_frame);
    // Updating the goal to 20 while settled starts a fresh 10 -> 20 segment.
    let was_updated = tr.update(&mut store, 1000, 20);
    assert!(was_updated);
    assert_eq!(store.state(tr.entity_id()).start_goal, 10);
    assert_eq!(store.state(tr.entity_id()).goal_last_updated_at, Some(1000));
    tr.invalidate_cache();
    let (value, _) = tr.evaluate(&mut store, 1500);
    assert_eq!(value, 15);
    tr.invalidate_cache();
    let (value, another_frame) = tr.evaluate(&mut store, 2000);
    assert_eq!(value, 20);
    assert!(!another_frame);
}

#[test]
fn transition_over_points() {
    let mut store: StateStore<Point<i64>> = StateStore::new();
    let mut tr = use_transition(&mut store, 1000, Point { x: 0i64, y: 0i64 });
    tr.update(&mut store, 0, Point { x: 10, y: -10 });
    let (value, another_frame) = tr.evaluate(&mut store, 500);
    assert_eq!(value, Point { x: 5, y: -5 });
    assert!(another_frame);
}

#[test]
fn values_advance_monotonically() {
    let mut store: StateStore<i64> = StateStore::new();
    let mut tr = use_transition(&mut store, 1000, 0i64).with_easing(Easing::EaseInOutQuad);
    tr.update(&mut store, 0, 1000);
    let mut prev: i64 = -1;
    let mut t: u64 = 0;
    while t <= 1200 {
        tr.invalidate_cache();
        let (v, _) = tr.evaluate(&mut store, t);
        assert!(v >= prev, "value went backwards at {t} ms");
        prev = v;
        t += 40;
    }
    assert_eq!(prev, 1000);
}

#[test]
fn clock_before_segment_start_counts_as_zero() {
    let mut store: StateStore<i64> = StateStore::new();
    let tr = use_transition(&mut store, 1000, 0i64);
    tr.update(&mut store, 500, 100);
    // A reading older than the segment start reads as no elapsed time.
    assert_eq!(tr.evaluate_delta(&store, 100), 0);
}
