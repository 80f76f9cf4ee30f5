//! The timer of a connection.
use std::time::{Duration, Instant};
use vstd::prelude::*;
use vstd::std_specs::ops::AddSpec;

verus! {

/// `std::time::Instant`, a moment of the monotonic clock.
#[verifier::external_type_specification]
#[verifier::external_body]
pub struct ExInstant(Instant);

/// Whether `std::time::Instant::now` can show this moment.
pub uninterp spec fn can_show(now: Instant) -> bool;

/// `std::time::Instant::now`: the monotonic clock. The moment is one that [`can_show`] names.
/// Nothing else is claimed of it.
pub assume_specification[ Instant::now ]() -> (now: Instant)
    ensures
        can_show(now),
;

/// `std::time::Instant::checked_add`: the sum, if and only if it can be represented.
pub assume_specification[ Instant::checked_add ](moment: &Instant, duration: Duration) -> (sum:
    Option<Instant>)
    ensures
        sum == later_by(*moment, duration),
;

/// The moment that lies a duration after another, where it can be represented.
pub open spec fn later_by(moment: Instant, duration: Duration) -> Option<Instant> {
    if moment.add_req(duration) {
        Some(moment.add_spec(duration))
    } else {
        None
    }
}

/// Where a moment lies on the monotonic clock: the later it is, the larger.
pub uninterp spec fn place(moment: Instant) -> int;

/// Whether the first moment is not after the second.
pub open spec fn not_after(first: Instant, second: Instant) -> bool {
    place(first) <= place(second)
}

/// `<=` of `std::time::Instant`: whether the first moment is not after the second, by the places
/// that [`place`] names. The order of moments is a total one.
#[verifier::external_body]
fn has_come(time: &Instant, now: &Instant) -> (r: bool)
    ensures
        r == (place(*time) <= place(*now)),
{
    time <= now
}

/// When the connection wants to be woken.
#[derive(Clone, Copy, Debug)]
pub enum Timer {
    /// At this moment.
    SetTo(Instant),
    /// Not at all.
    Unset,
}

impl Timer {
    /// Whether the timer has run down at a moment.
    pub open spec fn is_ready_at(self, now: Instant) -> bool {
        match self {
            Timer::SetTo(time) => not_after(time, now),
            Timer::Unset => false,
        }
    }

    /// The timer that runs down a timeout after a moment, where there is such a moment.
    pub open spec fn armed(now: Instant, timeout: Option<Duration>) -> Option<Timer> {
        match timeout {
            None => Some(Timer::Unset),
            Some(duration) => match later_by(now, duration) {
                Some(time) => Some(Timer::SetTo(time)),
                None => None,
            },
        }
    }

    /// Whether the timer has run down at a moment.
    pub fn ready_at(&self, now: &Instant) -> (r: bool)
        ensures
            r == self.is_ready_at(*now),
    {
        match self {
            Timer::SetTo(time) => has_come(time, now),
            Timer::Unset => false,
        }
    }

    /// Whether the timer has run down by now.
    pub fn ready(&mut self) -> (r: bool)
        ensures
            *final(self) == *old(self),
            *old(self) is Unset ==> !r,
            exists|now: Instant| can_show(now) && r == #[trigger] old(self).is_ready_at(now),
    {
        let instant = Instant::now();
        let r = self.ready_at(&instant);
        assert(r == old(self).is_ready_at(instant));
        r
    }

    /// Sets the timer to run down a timeout after a moment, or stops it if there is no timeout.
    /// Where there is no such moment the timer stays as it is, and the answer is `false`.
    pub fn arm_at(&mut self, now: &Instant, timeout: Option<Duration>) -> (r: bool)
        ensures
            match Timer::armed(*now, timeout) {
                Some(timer) => r && *final(self) == timer,
                None => !r && *final(self) == *old(self),
            },
    {
        match timeout {
            None => {
                *self = Timer::Unset;
                true
            },
            Some(duration) => match now.checked_add(duration) {
                Some(time) => {
                    *self = Timer::SetTo(time);
                    true
                },
                None => false,
            },
        }
    }
}

/// Once a timer has run down, it has run down at every later moment, until it is set anew. One that
/// is not set never runs down.
pub proof fn lemma_ready_stays_ready(timer: Timer, earlier: Instant, later: Instant)
    requires
        not_after(earlier, later),
    ensures
        timer.is_ready_at(earlier) ==> timer.is_ready_at(later),
        timer is Unset ==> !timer.is_ready_at(earlier) && !timer.is_ready_at(later),
{
}

/// A timer that is set to a moment has run down from that moment on, and not before.
pub proof fn lemma_ready_from_its_moment(time: Instant, now: Instant)
    ensures
        Timer::SetTo(time).is_ready_at(now) <==> place(time) <= place(now),
        Timer::SetTo(time).is_ready_at(time),
{
}

/// Arming a timer without a timeout stops it. With one, it runs down when the timeout has passed,
/// and not before, if the clock can express when that is; if not, it cannot be armed.
pub proof fn lemma_armed_runs_down_on_time(now: Instant, timeout: Option<Duration>, later: Instant)
    ensures
        timeout is None ==> Timer::armed(now, timeout) == Some(Timer::Unset),
        timeout matches Some(duration) ==> if now.add_req(duration) {
            &&& Timer::armed(now, timeout) == Some(Timer::SetTo(now.add_spec(duration)))
            &&& Timer::armed(now, timeout)->Some_0.is_ready_at(later) <==> place(
                now.add_spec(duration),
            ) <= place(later)
        } else {
            Timer::armed(now, timeout) is None
        },
{
}

} // verus!
