use std::time::Instant;
use vstd::prelude::*;

verus! {

#[verifier::external_type_specification]
#[verifier::external_body]
pub struct ExInstant(std::time::Instant);

/// Relies on `std::time::Instant::now`: the current instant. Nothing is
/// known of its value.
#[verifier::external_body]
pub(crate) fn instant_now() -> Instant {
    Instant::now()
}

/// Relies on `std::time::Instant::elapsed`, read in whole milliseconds
/// (`Duration::as_millis`). The value depends on the clock: nothing is
/// known of it.
#[verifier::external_body]
pub(crate) fn elapsed_millis(start: &Instant) -> u128 {
    start.elapsed().as_millis()
}

/// Relies on `std::time::Instant::elapsed`, read in whole microseconds
/// (`Duration::as_micros`). The value depends on the clock: nothing is
/// known of it.
#[verifier::external_body]
pub(crate) fn elapsed_micros(start: &Instant) -> u128 {
    start.elapsed().as_micros()
}

/// A timer has expired once its duration has elapsed; a timer of zero
/// duration is always expired.
pub open spec fn expired_spec(duration_ms: u64, elapsed_ms: u128) -> bool {
    duration_ms == 0 || elapsed_ms >= duration_ms
}

/// A countdown of a duration in milliseconds from a start instant.
#[derive(Debug)]
pub struct Timer {
    start_time: Instant,
    duration_ms: u64,
}

impl Timer {
    pub closed spec fn duration(&self) -> u64 {
        self.duration_ms
    }

    /// The instant the countdown started from.
    pub closed spec fn start(&self) -> Instant {
        self.start_time
    }

    /// A timer of zero duration.
    pub fn new() -> (r: Self)
        ensures
            r.duration() == 0,
    {
        Timer { start_time: instant_now(), duration_ms: 0 }
    }

    pub fn from_millis(milliseconds: u64) -> (r: Self)
        ensures
            r.duration() == milliseconds,
    {
        Timer { start_time: instant_now(), duration_ms: milliseconds }
    }

    pub fn set(&mut self, milliseconds: u64)
        ensures
            final(self).duration() == milliseconds,
            final(self).start() == old(self).start(),
    {
        self.duration_ms = milliseconds;
    }

    /// Sets the duration to one period of the given frequency, in whole milliseconds.
    pub fn set_hz(&mut self, hertz: u64)
        requires
            hertz > 0,
        ensures
            final(self).duration() == 1000u64 / hertz,
            final(self).start() == old(self).start(),
    {
        self.duration_ms = 1000 / hertz;
    }

    /// Restarts the countdown from now.
    pub fn reset(&mut self)
        ensures
            final(self).duration() == old(self).duration(),
    {
        self.start_time = instant_now();
    }

    /// Whether a timer of the given duration has expired after the given time.
    pub fn expired_after(duration_ms: u64, elapsed_ms: u128) -> (r: bool)
        ensures
            r == expired_spec(duration_ms, elapsed_ms),
    {
        duration_ms == 0 || elapsed_ms >= duration_ms as u128
    }

    /// Whether the duration has elapsed since the start.
    pub fn is_expired(&self) -> (r: bool)
        ensures
            self.duration() == 0 ==> r,
    {
        if self.duration_ms == 0 {
            return true;
        }
        let elapsed = elapsed_millis(&self.start_time);
        Self::expired_after(self.duration_ms, elapsed)
    }

    /// Whether the duration has elapsed since the start; if so the countdown
    /// restarts from now.
    pub fn is_repeating(&mut self) -> (r: bool)
        ensures
            final(self).duration() == old(self).duration(),
            old(self).duration() == 0 ==> r,
            (!r || old(self).duration() == 0) ==> final(self).start() == old(self).start(),
    {
        if self.duration_ms == 0 {
            return true;
        }
        let elapsed = elapsed_millis(&self.start_time);
        if Self::expired_after(self.duration_ms, elapsed) {
            self.start_time = instant_now();
            return true;
        }
        false
    }
}

/// Counts frames per second: each second the count of the second that ended
/// is kept, with the one before it.
pub struct FrameCounter {
    start_time: Instant,
    frame_counter: u32,
    last_count: u32,
    second_last_count: u32,
}

impl FrameCounter {
    pub closed spec fn frames(&self) -> u32 {
        self.frame_counter
    }

    pub closed spec fn last(&self) -> u32 {
        self.last_count
    }

    pub closed spec fn second_last(&self) -> u32 {
        self.second_last_count
    }

    /// The instant the current second started.
    pub closed spec fn start(&self) -> Instant {
        self.start_time
    }

    pub fn new() -> (r: Self)
        ensures
            r.frames() == 0,
            r.last() == 0,
            r.second_last() == 1,
    {
        FrameCounter { start_time: instant_now(), frame_counter: 0, last_count: 0, second_last_count: 1 }
    }

    /// Counts one frame, given the milliseconds since the current second
    /// started. Once a second has passed, the count moves to `last` (and
    /// `last` to `second_last`) and a new second starts, which the result
    /// tells. The count saturates at `u32::MAX`.
    pub fn record(&mut self, elapsed_ms: u128) -> (rolled: bool)
        ensures
            rolled == (elapsed_ms >= 1000),
            final(self).start() == old(self).start(),
            rolled ==> final(self).second_last() == old(self).last() && final(self).last() == old(
                self,
            ).frames() && final(self).frames() == 0,
            !rolled ==> final(self).second_last() == old(self).second_last() && final(self).last()
                == old(self).last() && final(self).frames() == (if old(self).frames() == u32::MAX {
                u32::MAX as int
            } else {
                old(self).frames() + 1
            }),
    {
        if elapsed_ms >= 1000 {
            self.second_last_count = self.last_count;
            self.last_count = self.frame_counter;
            self.frame_counter = 0;
            true
        } else {
            self.frame_counter = self.frame_counter.saturating_add(1);
            false
        }
    }

    /// Counts one frame against the clock.
    pub fn count(&mut self)
        ensures
            (final(self).second_last() == old(self).last() && final(self).last() == old(self).frames()
                && final(self).frames() == 0) || (final(self).second_last() == old(self).second_last()
                && final(self).last() == old(self).last() && final(self).start() == old(self).start()
                && final(self).frames() == (if old(self).frames() == u32::MAX {
                u32::MAX as int
            } else {
                old(self).frames() + 1
            })),
    {
        let elapsed = elapsed_millis(&self.start_time);
        if self.record(elapsed) {
            self.start_time = instant_now();
        }
    }

    pub fn last_frame_count(&self) -> (r: u32)
        ensures
            r == self.last(),
    {
        self.last_count
    }

    /// Whether the last two per-second counts differ.
    pub fn changed(&self) -> (r: bool)
        ensures
            r == (self.second_last() != self.last()),
    {
        self.second_last_count != self.last_count
    }
}

} // verus!
