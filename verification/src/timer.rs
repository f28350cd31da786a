//! The timer device: a source of interrupts that fires after a number of
//! instructions drawn from a range.
//!
//! The device is the one of `lc3_ensemble`. [`timer`] names what it holds;
//! the functions at the end of this module each make one access to it, with
//! a contract that is taken from its source and not proved.

use vstd::prelude::*;
use lc3_ensemble::sim::device::TimerDevice;

verus! {

/// `lc3_ensemble::sim::device::TimerDevice`, taken as it is: nothing inside
/// it is visible here.
#[verifier::external_type_specification]
#[verifier::external_body]
pub struct ExTimerDevice(lc3_ensemble::sim::device::TimerDevice);

/// What a timer holds.
pub struct TimerState {
    /// Whether the timer raises interrupts.
    pub enabled: bool,
    /// The interrupt vector.
    pub vect: u8,
    /// The priority as stored; values above seven count as seven.
    pub priority: u8,
    /// The smallest number of instructions between two interrupts.
    pub range_start: u32,
    /// The end of the range.
    pub range_end: u32,
    /// Whether the end of the range belongs to it.
    pub end_inclusive: bool,
    /// The number of instructions until the next interrupt.
    pub remaining: u32,
}

impl TimerState {
    /// Whether `n` lies in the range.
    pub open spec fn in_range(&self, n: u32) -> bool {
        self.range_start <= n && if self.end_inclusive {
            n <= self.range_end
        } else {
            n < self.range_end
        }
    }

    /// Whether the range holds a number at all.
    pub open spec fn range_nonempty(&self) -> bool {
        self.in_range(self.range_start)
    }
}

/// What the timer holds.
pub uninterp spec fn timer(t: TimerDevice) -> TimerState;

/// Why a timer setting is refused.
#[derive(Debug, PartialEq, Eq, Structural, Clone, Copy)]
pub enum TimerError {
    /// The priority is not one of 0 to 7.
    PriorityOutOfRange,
    /// The largest interval is smaller than the smallest.
    EmptyRange,
}

impl TimerError {
    /// The text shown to the user.
    pub open spec fn message_text(&self) -> Seq<char> {
        match self {
            TimerError::PriorityOutOfRange =>
                "lc3.setTimerPriority: priority was not within the range 0-7"@,
            TimerError::EmptyRange => "lc3.setTimerMax: max was smaller than min"@,
        }
    }

    /// The text shown to the user.
    pub fn message(&self) -> (s: String)
        ensures
            s@ == self.message_text(),
    {
        match self {
            TimerError::PriorityOutOfRange => "lc3.setTimerPriority: priority was not within the range 0-7".to_owned(),
            TimerError::EmptyRange => "lc3.setTimerMax: max was smaller than min".to_owned(),
        }
    }
}

/// The number of instructions until the next interrupt.
pub fn get_timer_remaining(t: &TimerDevice) -> (n: u32)
    ensures
        n == timer(*t).remaining,
{
    remaining(t)
}

/// Switches the timer on or off.
pub fn set_timer_status(t: &mut TimerDevice, enabled: bool)
    ensures
        timer(*final(t)) == (TimerState { enabled, ..timer(*old(t)) }),
{
    put_enabled(t, enabled);
}

/// Draws the time to the next interrupt anew from the range, and tells
/// whether it did. A timer whose range is empty is left alone.
pub fn reset_timer(t: &mut TimerDevice) -> (done: bool)
    ensures
        done == timer(*old(t)).range_nonempty(),
        done ==> timer(*final(t)) == (TimerState {
            remaining: timer(*final(t)).remaining,
            ..timer(*old(t))
        }) && timer(*old(t)).in_range(timer(*final(t)).remaining),
        !done ==> timer(*final(t)) == timer(*old(t)),
{
    match range(t) {
        Some((start, end, inclusive)) => {
            if start < end || (inclusive && start == end) {
                reseed(t);
                true
            } else {
                false
            }
        },
        None => false,
    }
}

/// Whether the timer can be reset: its range holds a number to draw.
pub fn can_reset(t: &TimerDevice) -> (b: bool)
    ensures
        b == timer(*t).range_nonempty(),
{
    match range(t) {
        Some((start, end, inclusive)) => start < end || (inclusive && start == end),
        None => false,
    }
}

/// The interrupt vector.
pub fn get_timer_vect(t: &TimerDevice) -> (v: u8)
    ensures
        v == timer(*t).vect,
{
    vect(t)
}

/// Chooses the interrupt vector.
pub fn set_timer_vect(t: &mut TimerDevice, v: u8)
    ensures
        timer(*final(t)) == (TimerState { vect: v, ..timer(*old(t)) }),
{
    put_vect(t, v);
}

/// The priority the timer interrupts at, which is never above seven.
pub open spec fn effective_priority(stored: u8) -> u8 {
    if stored > 7 {
        7
    } else {
        stored
    }
}

/// The priority the timer interrupts at.
pub fn get_timer_priority(t: &TimerDevice) -> (p: u8)
    ensures
        p == effective_priority(timer(*t).priority),
        p <= 7,
{
    let stored = priority(t);
    if stored > 7 {
        7
    } else {
        stored
    }
}

/// Chooses the priority, which has to be one of 0 to 7.
pub fn set_timer_priority(t: &mut TimerDevice, p: u8) -> (r: Result<(), TimerError>)
    ensures
        p < 8 ==> r is Ok && timer(*final(t)) == (TimerState { priority: p, ..timer(*old(t)) }),
        p >= 8 ==> r == Err::<(), TimerError>(TimerError::PriorityOutOfRange) && timer(*final(t))
            == timer(*old(t)),
{
    if p < 8 {
        put_priority(t, p);
        Ok(())
    } else {
        Err(TimerError::PriorityOutOfRange)
    }
}

/// The smallest number of instructions between two interrupts.
pub fn get_timer_max(t: &TimerDevice) -> (n: u32)
    ensures
        n == timer(*t).range_start,
{
    match range(t) {
        Some((start, _, _)) => start,
        None => 0,
    }
}

/// The range that a pair of bounds stands for: without an upper bound, the
/// single number `min`.
pub open spec fn chosen_range(min: u32, max: Option<u32>) -> (u32, u32) {
    match max {
        Some(m) => (min, m),
        None => (min, min),
    }
}

/// Chooses the range that the time between two interrupts is drawn from,
/// both ends included. Without `max` the time is always `min`. A range with
/// `max` below `min` holds no number and is refused.
pub fn set_timer_max(t: &mut TimerDevice, min: u32, max: Option<u32>) -> (r: Result<
    (),
    TimerError,
>)
    ensures
        chosen_range(min, max).0 <= chosen_range(min, max).1 ==> r is Ok && timer(*final(t)) == (
        TimerState {
            range_start: chosen_range(min, max).0,
            range_end: chosen_range(min, max).1,
            end_inclusive: true,
            ..timer(*old(t))
        }),
        chosen_range(min, max).0 > chosen_range(min, max).1 ==> r == Err::<(), TimerError>(
            TimerError::EmptyRange,
        ) && timer(*final(t)) == timer(*old(t)),
{
    let end = match max {
        Some(m) => m,
        None => min,
    };
    if min <= end {
        put_range(t, min, end);
        Ok(())
    } else {
        Err(TimerError::EmptyRange)
    }
}

/// `TimerDevice::get_remaining`.
#[verifier::external_body]
fn remaining(t: &TimerDevice) -> (n: u32)
    ensures
        n == timer(*t).remaining,
{
    t.get_remaining()
}

/// Assigns the `enabled` field.
#[verifier::external_body]
fn put_enabled(t: &mut TimerDevice, enabled: bool)
    ensures
        timer(*final(t)) == (TimerState { enabled, ..timer(*old(t)) }),
{
    t.enabled = enabled;
}

/// Reads the `vect` field.
#[verifier::external_body]
fn vect(t: &TimerDevice) -> (v: u8)
    ensures
        v == timer(*t).vect,
{
    t.vect
}

/// Assigns the `vect` field.
#[verifier::external_body]
fn put_vect(t: &mut TimerDevice, v: u8)
    ensures
        timer(*final(t)) == (TimerState { vect: v, ..timer(*old(t)) }),
{
    t.vect = v;
}

/// Reads the `priority` field.
#[verifier::external_body]
fn priority(t: &TimerDevice) -> (p: u8)
    ensures
        p == timer(*t).priority,
{
    t.priority
}

/// Assigns the `priority` field.
#[verifier::external_body]
fn put_priority(t: &mut TimerDevice, p: u8)
    ensures
        timer(*final(t)) == (TimerState { priority: p, ..timer(*old(t)) }),
{
    t.priority = p;
}

/// `TimerDevice::get_range`, by its two bounds: the start, which is always
/// an included bound, and the end with whether it is included.
#[verifier::external_body]
fn range(t: &TimerDevice) -> (r: Option<(u32, u32, bool)>)
    ensures
        r == Some((timer(*t).range_start, timer(*t).range_end, timer(*t).end_inclusive)),
{
    let range = t.get_range();
    match (core::ops::RangeBounds::start_bound(&range), core::ops::RangeBounds::end_bound(&range)) {
        (core::ops::Bound::Included(&s), core::ops::Bound::Included(&e)) => Some((s, e, true)),
        (core::ops::Bound::Included(&s), core::ops::Bound::Excluded(&e)) => Some((s, e, false)),
        _ => None,
    }
}

/// `TimerDevice::set_range` with an inclusive range. The time that remains
/// is not drawn anew.
#[verifier::external_body]
fn put_range(t: &mut TimerDevice, min: u32, max: u32)
    ensures
        timer(*final(t)) == (TimerState {
            range_start: min,
            range_end: max,
            end_inclusive: true,
            ..timer(*old(t))
        }),
{
    t.set_range(min..=max);
}

/// `TimerDevice::io_reset`: draws the remaining time at random from the
/// range. Drawing from an empty range panics, so that is left out.
#[verifier::external_body]
fn reseed(t: &mut TimerDevice)
    requires
        timer(*old(t)).range_nonempty(),
    ensures
        timer(*final(t)) == (TimerState {
            remaining: timer(*final(t)).remaining,
            ..timer(*old(t))
        }),
        timer(*old(t)).in_range(timer(*final(t)).remaining),
{
    lc3_ensemble::sim::device::ExternalDevice::io_reset(t);
}

} // verus!
