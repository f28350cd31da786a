use lc3_backend::timer::{
    can_reset, get_timer_max, get_timer_priority, get_timer_remaining, get_timer_vect, reset_timer,
    set_timer_max, set_timer_priority, set_timer_status, set_timer_vect, TimerError,
};
use lc3_ensemble::sim::device::{ExternalDevice, TimerDevice};

#[test]
fn timer_starts_with_its_defaults() {
    let timer = TimerDevice::default();
    assert_eq!(get_timer_remaining(&timer), 50);
    assert_eq!(get_timer_max(&timer), 50);
    assert_eq!(get_timer_vect(&timer), 0x81);
    assert_eq!(get_timer_priority(&timer), 4);
    assert!(!timer.enabled);
}

#[test]
fn timer_settings_are_stored() {
    let mut timer = TimerDevice::default();
    set_timer_status(&mut timer, true);
    assert!(timer.enabled);
    set_timer_status(&mut timer, false);
    assert!(!timer.enabled);
    set_timer_vect(&mut timer, 0x90);
    assert_eq!(get_timer_vect(&timer), 0x90);
    assert_eq!(timer.vect, 0x90);
    assert_eq!(get_timer_priority(&timer), 4);
    assert_eq!(get_timer_remaining(&timer), 50);
}

#[test]
fn timer_priority_is_zero_to_seven() {
    let mut timer = TimerDevice::default();
    for p in 0..8u8 {
        assert_eq!(set_timer_priority(&mut timer, p), Ok(()));
        assert_eq!(get_timer_priority(&timer), p);
        assert_eq!(timer.priority, p);
    }
    for p in [8u8, 9, 200, 255] {
        assert_eq!(set_timer_priority(&mut timer, p), Err(TimerError::PriorityOutOfRange));
        assert_eq!(get_timer_priority(&timer), 7);
    }
    assert_eq!(
        TimerError::PriorityOutOfRange.message(),
        "lc3.setTimerPriority: priority was not within the range 0-7"
    );
}

#[test]
fn timer_priority_is_clamped_when_shown() {
    let mut timer = TimerDevice::default();
    timer.priority = 8;
    assert_eq!(get_timer_priority(&timer), 7);
    timer.priority = 255;
    assert_eq!(get_timer_priority(&timer), 7);
    timer.priority = 0;
    assert_eq!(get_timer_priority(&timer), 0);
}

#[test]
fn timer_range_is_set_and_drawn_from() {
    let mut timer = TimerDevice::default();
    assert_eq!(set_timer_max(&mut timer, 7, None), Ok(()));
    assert_eq!(get_timer_max(&timer), 7);
    assert_eq!(get_timer_remaining(&timer), 50);
    assert!(reset_timer(&mut timer));
    assert_eq!(get_timer_remaining(&timer), 7);

    assert_eq!(set_timer_max(&mut timer, 10, Some(20)), Ok(()));
    assert_eq!(get_timer_max(&timer), 10);
    for _ in 0..50 {
        assert!(reset_timer(&mut timer));
        let n = get_timer_remaining(&timer);
        assert!((10..=20).contains(&n));
    }
    assert_eq!(set_timer_max(&mut timer, 0, Some(0)), Ok(()));
    assert!(reset_timer(&mut timer));
    assert_eq!(get_timer_remaining(&timer), 0);
}

#[test]
fn timer_refuses_an_empty_range() {
    let mut timer = TimerDevice::default();
    assert_eq!(set_timer_max(&mut timer, 5, Some(4)), Err(TimerError::EmptyRange));
    assert_eq!(get_timer_max(&timer), 50);
    assert!(reset_timer(&mut timer));
    assert_eq!(get_timer_remaining(&timer), 50);
    assert_eq!(TimerError::EmptyRange.message(), "lc3.setTimerMax: max was smaller than min");
}

#[test]
fn reset_leaves_a_timer_with_an_empty_range_alone() {
    let mut timer = TimerDevice::new(None, 9..=9, 0x81, 4);
    assert_eq!(get_timer_remaining(&timer), 9);
    assert!(can_reset(&timer));
    timer.set_range(5..5);
    assert!(!can_reset(&timer));
    assert!(!reset_timer(&mut timer));
    assert_eq!(get_timer_remaining(&timer), 9);
    timer.set_range(5..6);
    assert!(reset_timer(&mut timer));
    assert_eq!(get_timer_remaining(&timer), 5);
}

#[test]
fn exact_timer_fires_once_per_period() {
    let n = 5u32;
    let mut timer = TimerDevice::default();
    set_timer_max(&mut timer, n, None).unwrap();
    set_timer_status(&mut timer, true);
    assert!(reset_timer(&mut timer));
    assert_eq!(get_timer_remaining(&timer), n);

    let mut fired = Vec::new();
    for poll in 1..=n {
        if timer.poll_interrupt().is_some() {
            fired.push(poll);
        }
    }
    assert_eq!(fired, vec![n]);
    assert_eq!(get_timer_remaining(&timer), 0);
}
