//! A running session: the state, whether the clock runs, and when real time
//! was last handed to the game clock.
use crate::clock::{
    due_seconds, on_tick, seconds_due, tick_fits, tick_in_range, ticked, MAX_SPAN_NANOS,
    NANOS_PER_SEC,
};
use crate::rng::DefaultRandomSource;
use crate::state::{is_fresh, LightSource, LightSourceType, ShadowtrackData};
use std::time::{Duration, Instant};
use vstd::prelude::*;

verus! {

#[verifier::external_type_specification]
#[verifier::external_body]
pub struct ExInstant(Instant);

/// Relies on `Instant::now`: the current reading of the monotonic clock.
pub assume_specification[ Instant::now ]() -> Instant;

/// The span from `earlier` to `later`, in nanoseconds, as
/// `Instant::duration_since` measures it.
pub uninterp spec fn span_nanos(later: Instant, earlier: Instant) -> u128;

/// The length of `d` in nanoseconds, as `Duration::as_nanos` gives it.
pub uninterp spec fn duration_nanos(d: Duration) -> u128;

/// `t` moved on by `d`, as `Instant::checked_add` gives it.
pub uninterp spec fn later_by(t: Instant, d: Duration) -> Option<Instant>;

/// Relies on `Instant::duration_since`: the span from `earlier` to `self`,
/// zero when `earlier` is later; it depends on the two instants alone.
pub assume_specification[ Instant::duration_since ](this: &Instant, earlier: Instant) -> (r:
    Duration)
    ensures
        duration_nanos(r) == span_nanos(*this, earlier),
;

/// Relies on `Instant::checked_add`: `self` moved on by `duration`, or
/// nothing where that leaves the clock's range.
pub assume_specification[ Instant::checked_add ](this: &Instant, duration: Duration) -> (r: Option<
    Instant,
>)
    ensures
        r == later_by(*this, duration),
;

/// Relies on `Duration::from_secs`: a span of `secs` whole seconds.
pub assume_specification[ Duration::from_secs ](secs: u64) -> (r: Duration)
    ensures
        duration_nanos(r) == secs * NANOS_PER_SEC,
;

/// Relies on `Duration::as_nanos`: the span in nanoseconds, which a
/// `Duration` (at most `u64::MAX` seconds and 999,999,999 nanoseconds)
/// bounds.
pub assume_specification[ Duration::as_nanos ](this: &Duration) -> (r: u128)
    ensures
        r == duration_nanos(*this),
        r <= MAX_SPAN_NANOS,
;

/// `b` is `a` after the clock check at real time `now`. Under a second since
/// the last mark: nothing changes. Otherwise, with `s` the whole seconds
/// since the mark: the mark moves on by `s` seconds (to `now` where that
/// leaves the clock's range); a running clock takes the `s` seconds when it
/// can without overflow, and else the tick is dropped; a stopped clock keeps
/// its data.
pub open spec fn ticked_at(a: ShadowtrackApp, b: ShadowtrackApp, now: Instant) -> bool {
    match seconds_due(span_nanos(now, a.last_tick)) {
        None => b == a,
        Some(s) => {
            &&& b.clock_running == a.clock_running
            &&& b.show_add_light_modal == a.show_add_light_modal
            &&& exists|d: Duration|
                {
                    &&& duration_nanos(d) == s * NANOS_PER_SEC
                    &&& b.last_tick == match #[trigger] later_by(a.last_tick, d) {
                        Some(t) => t,
                        None => now,
                    }
                }
            &&& if a.clock_running && tick_in_range(a.data, s) {
                ticked(a.data, b.data, s)
            } else {
                b.data == a.data
            }
        },
    }
}

/// The application: session state, clock switch, and the real-time mark of
/// the last clock check.
pub struct ShadowtrackApp {
    pub show_add_light_modal: bool,
    pub data: ShadowtrackData,
    pub clock_running: bool,
    pub last_tick: Instant,
    pub rng: DefaultRandomSource,
}

impl Default for ShadowtrackApp {
    fn default() -> (r: Self)
        ensures
            !r.show_add_light_modal,
            is_fresh(r.data),
            !r.clock_running,
    {
        ShadowtrackApp {
            show_add_light_modal: false,
            data: ShadowtrackData::default(),
            clock_running: false,
            last_tick: Instant::now(),
            rng: DefaultRandomSource,
        }
    }
}

impl ShadowtrackApp {
    /// Starts over with a new session.
    pub fn reset(&mut self)
        ensures
            !final(self).show_add_light_modal,
            is_fresh(final(self).data),
            !final(self).clock_running,
    {
        *self = Self::default();
    }

    /// Starts the clock when stopped, stops it when running.
    pub fn toggle_clock(&mut self)
        ensures
            final(self).clock_running == !old(self).clock_running,
            final(self).data == old(self).data,
            final(self).show_add_light_modal == old(self).show_add_light_modal,
            final(self).last_tick == old(self).last_tick,
    {
        self.clock_running = !self.clock_running;
    }

    /// Moves game time on by `secs` seconds, whether or not the clock runs;
    /// no turn fires.
    pub fn advance_clock_secs(&mut self, secs: u64)
        requires
            old(self).data.clock_elapsed + secs <= u64::MAX,
        ensures
            final(self).data == (ShadowtrackData {
                clock_elapsed: (old(self).data.clock_elapsed + secs) as u64,
                ..old(self).data
            }),
            final(self).clock_running == old(self).clock_running,
            final(self).show_add_light_modal == old(self).show_add_light_modal,
            final(self).last_tick == old(self).last_tick,
    {
        self.data.clock_elapsed = self.data.clock_elapsed + secs;
    }

    /// Clears the game clock and stops it; the trigger is disarmed.
    pub fn reset_clock(&mut self)
        ensures
            final(self).data == (ShadowtrackData {
                clock_elapsed: 0,
                next_process_minutes: None,
                ..old(self).data
            }),
            !final(self).clock_running,
            final(self).show_add_light_modal == old(self).show_add_light_modal,
            final(self).last_tick == old(self).last_tick,
    {
        self.data.clock_elapsed = 0;
        self.clock_running = false;
        self.data.next_process_minutes = None;
    }

    /// Adds the light described in the "add light" form, with 60 minutes and
    /// no roll yet, then clears the form (radius 20, torch) and closes it.
    /// Nothing happens while the form has no label.
    pub fn add_light_from_form(&mut self)
        ensures
            old(self).data.new_light_label@.len() == 0 ==> *final(self) == *old(self),
            old(self).data.new_light_label@.len() > 0 ==> {
                &&& final(self).data == (ShadowtrackData {
                    light_sources: final(self).data.light_sources,
                    new_light_label: final(self).data.new_light_label,
                    new_light_range: 20,
                    new_light_type: LightSourceType::Torch,
                    ..old(self).data
                })
                &&& final(self).data.light_sources@ == old(self).data.light_sources@.push(
                    LightSource {
                        label: old(self).data.new_light_label,
                        light_type: old(self).data.new_light_type,
                        radius_feet: old(self).data.new_light_range,
                        minutes_remaining: 60,
                        last_roll: None,
                    },
                )
                &&& final(self).data.new_light_label@.len() == 0
                &&& !final(self).show_add_light_modal
                &&& final(self).clock_running == old(self).clock_running
                &&& final(self).last_tick == old(self).last_tick
            },
    {
        if self.data.new_light_label.as_str().is_empty() {
            return;
        }
        let mut label = String::new();
        std::mem::swap(&mut label, &mut self.data.new_light_label);
        let mut light_type = LightSourceType::Torch;
        std::mem::swap(&mut light_type, &mut self.data.new_light_type);
        self.data.light_sources.push(
            LightSource {
                label,
                radius_feet: self.data.new_light_range,
                light_type,
                minutes_remaining: 60,
                last_roll: None,
            },
        );
        self.data.new_light_range = 20;
        self.show_add_light_modal = false;
    }

    /// The whole seconds of real time from the last check to `now`, when at
    /// least one has passed.
    pub fn should_tick(&self, now: Instant) -> (r: Option<u64>)
        ensures
            r == seconds_due(span_nanos(now, self.last_tick)),
    {
        let elapsed = now.duration_since(self.last_tick);
        let nanos = elapsed.as_nanos();
        due_seconds(nanos)
    }

    /// The clock check at real time `now`: hands the whole seconds since the
    /// last mark to the game clock, which counts them only while it runs and
    /// only where they fit without overflow.
    pub fn tick_at(&mut self, now: Instant)
        ensures
            ticked_at(*old(self), *final(self), now),
    {
        if let Some(secs) = self.should_tick(now) {
            // The mark moves on by the seconds handed out, keeping the
            // fraction of a second for the next check.
            let step = Duration::from_secs(secs);
            self.last_tick = match self.last_tick.checked_add(step) {
                Some(t) => t,
                None => now,
            };
            if self.clock_running && tick_fits(&self.data, secs) {
                on_tick(&mut self.data, secs, &mut self.rng);
            }
        }
    }

    /// The periodic check: the clock check at the current real time.
    pub fn handle_clock_tick(&mut self)
        ensures
            exists|now: Instant| ticked_at(*old(self), *final(self), now),
    {
        let now = Instant::now();
        self.tick_at(now);
    }
}

} // verus!
