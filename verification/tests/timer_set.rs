//! Which timers are armed, and which expiries still count.

use dlep::daemon::timer_set::TimerSet;
use dlep::fsm::timers::TimerId;

#[test]
fn periodic_timer_aborts_on_cancel() {
    let mut timers = TimerSet::default();
    let id = TimerId::new(99);
    let generation = timers.next_generation_for(id);
    timers.arm(id, true, generation);

    timers.cancel(id);
    assert!(!timers.is_armed(id), "cancel should remove the entry");
}

#[test]
fn forget_keeps_periodic_entry() {
    let mut timers = TimerSet::default();
    let id = TimerId::new(7);
    let generation = timers.next_generation_for(id);
    timers.arm(id, true, generation);

    timers.forget(id);
    assert!(
        timers.is_armed(id),
        "forget() should not remove a periodic entry"
    );
    assert!(timers.is_current_generation(id, generation));

    timers.cancel(id);
    assert!(!timers.is_armed(id));
}

#[test]
fn forget_removes_one_shot_entry() {
    let mut timers = TimerSet::default();
    let id = TimerId::new(8);
    let generation = timers.next_generation_for(id);
    timers.arm(id, false, generation);

    timers.forget(id);
    assert!(
        !timers.is_armed(id),
        "forget() should remove a one-shot entry"
    );
}

#[test]
fn rearm_invalidates_prior_generation() {
    let mut timers = TimerSet::default();
    let id = TimerId::new(42);

    let gen_a = timers.next_generation_for(id);
    timers.arm(id, false, gen_a);
    assert!(timers.is_current_generation(id, gen_a));

    let gen_b = timers.next_generation_for(id);
    assert_ne!(gen_a, gen_b, "rearm must bump the generation");
    timers.arm(id, false, gen_b);

    assert!(
        !timers.is_current_generation(id, gen_a),
        "stale (gen_a) expiry must be filtered after rearm"
    );
    assert!(timers.is_current_generation(id, gen_b));

    timers.cancel(id);
}

#[test]
fn cancelled_timer_generation_is_stale() {
    let mut timers = TimerSet::default();
    let id = TimerId::new(43);
    let generation = timers.next_generation_for(id);
    timers.arm(id, false, generation);

    timers.cancel(id);
    assert!(
        !timers.is_current_generation(id, generation),
        "expiry from cancelled timer must be filtered"
    );

    let next_generation = timers.next_generation_for(id);
    timers.arm(id, false, next_generation);
    assert_ne!(
        generation, next_generation,
        "generation must remain monotonic across cancel/rearm"
    );
    assert!(
        !timers.is_current_generation(id, generation),
        "cancelled generation must stay stale after the same timer id is rearmed"
    );
    assert!(timers.is_current_generation(id, next_generation));
}

#[test]
fn generations_count_up_from_one_per_timer() {
    let mut timers = TimerSet::default();
    let a = TimerId::new(1);
    let b = TimerId::new(2);
    assert_eq!(timers.start(a, true), 1);
    assert_eq!(timers.start(a, false), 2);
    assert_eq!(timers.start(b, false), 1);
    assert!(timers.is_current_generation(a, 2));
    assert!(timers.is_current_generation(b, 1));
}

#[test]
fn timers_do_not_disturb_one_another() {
    let mut timers = TimerSet::default();
    let a = TimerId::new(1);
    let b = TimerId::new(2);
    let generation = timers.start(a, false);
    timers.start(b, true);
    timers.cancel(b);
    timers.forget(b);
    assert!(timers.is_current_generation(a, generation));
}

#[test]
fn timer_that_was_never_armed_is_never_current() {
    let mut timers = TimerSet::default();
    let id = TimerId::new(5);
    assert!(!timers.is_current_generation(id, 0));
    timers.forget(id);
    timers.cancel(id);
    assert!(!timers.is_armed(id));
}

#[test]
fn a_stale_generation_stays_stale() {
    let mut timers = TimerSet::default();
    let id = TimerId::new(3);
    let first = timers.start(id, false);
    timers.cancel(id);
    for _ in 0..5 {
        timers.start(id, true);
        assert!(!timers.is_current_generation(id, first));
        timers.forget(id);
        assert!(!timers.is_current_generation(id, first));
    }
    timers.start(id, false);
    timers.forget(id);
    assert!(!timers.is_current_generation(id, first));
}
