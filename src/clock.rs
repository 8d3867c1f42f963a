//! The game clock: turning real time into whole seconds, advancing game
//! time, and firing the turn pipeline at minute boundaries.
use crate::rng::RandomSource;
use crate::state::{strings_view, ShadowtrackData};
use crate::systems::{
    burned_light, drawn_from, hit_by_roll, encounter_text, logged, logged_if_some, process_light_burn,
    roll_encounter, roll_light_event,
};
use vstd::prelude::*;

verus! {

/// Nanoseconds in a second.
pub const NANOS_PER_SEC: u128 = 1_000_000_000;

/// The longest span a `Duration` holds, in nanoseconds.
pub const MAX_SPAN_NANOS: u128 = 18_446_744_073_709_551_615_999_999_999;

/// Whole seconds to hand to the game clock after `nanos` of real time:
/// nothing under a second, else the elapsed time rounded down.
pub open spec fn seconds_due(nanos: u128) -> Option<u64> {
    if nanos < NANOS_PER_SEC {
        None
    } else {
        Some((nanos / NANOS_PER_SEC) as u64)
    }
}

/// The seconds the game clock is owed after `nanos` of real time since the
/// last check; nothing while less than a second has passed.
pub fn due_seconds(nanos: u128) -> (r: Option<u64>)
    requires
        nanos <= MAX_SPAN_NANOS,
    ensures
        r == seconds_due(nanos),
        nanos < NANOS_PER_SEC ==> r is None,
        nanos >= NANOS_PER_SEC ==> r == Some((nanos / NANOS_PER_SEC) as u64),
{
    if nanos < NANOS_PER_SEC {
        None
    } else {
        assert(nanos / NANOS_PER_SEC <= u64::MAX) by (nonlinear_arith)
            requires
                nanos <= MAX_SPAN_NANOS,
        ;
        Some((nanos / NANOS_PER_SEC) as u64)
    }
}

/// Once a check has handed out its whole seconds and the last check has moved
/// on by exactly that much, a second check with no more real time passed
/// hands out nothing.
pub proof fn lemma_second_check_is_quiet(nanos: u128)
    requires
        nanos <= MAX_SPAN_NANOS,
        seconds_due(nanos) is Some,
    ensures
        seconds_due((nanos - seconds_due(nanos).unwrap() * NANOS_PER_SEC) as u128) is None,
{
    let s = (nanos / NANOS_PER_SEC) as u64;
    assert(s == nanos / NANOS_PER_SEC) by (nonlinear_arith)
        requires
            nanos <= MAX_SPAN_NANOS,
            s == (nanos / NANOS_PER_SEC) as u64,
    ;
    assert(0 <= nanos - s * NANOS_PER_SEC < NANOS_PER_SEC) by (nonlinear_arith)
        requires
            s == nanos / NANOS_PER_SEC,
    ;
}

/// `b` is `a` after one turn: the turn counter moves on by one, every light
/// burns with a roll of its own, then an ambient event (if the table gives
/// one) and the encounter check (decided by a d6) are logged, both for the new turn.
pub open spec fn turn_processed(a: ShadowtrackData, b: ShadowtrackData) -> bool {
    &&& b.turn == a.turn + 1
    &&& b.light_sources@.len() == a.light_sources@.len()
    &&& forall|i: int|
        0 <= i < a.light_sources@.len() ==> burned_light(
            #[trigger] a.light_sources@[i],
            b.light_sources@[i],
        )
    &&& exists|event: Option<Seq<char>>, hit: bool, pick: Option<Seq<char>>|
        {
            &&& drawn_from(strings_view(a.torch_event_table@), event)
            &&& exists|roll: u32| #[trigger] hit_by_roll(hit, roll)
            &&& hit ==> drawn_from(strings_view(a.encounter_table@), pick)
            &&& #[trigger] b.log_view() == logged(
                logged_if_some(a.log_view(), b.turn as nat, event),
                b.turn as nat,
                encounter_text(hit, pick),
            )
        }
    &&& b == ShadowtrackData {
        turn: b.turn,
        light_sources: b.light_sources,
        event_log: b.event_log,
        ..a
    }
}

/// Runs one turn: the counter, the burn-down, the ambient event and the
/// encounter check, in that order.
pub fn process_turn<R: RandomSource>(data: &mut ShadowtrackData, rng: &mut R)
    requires
        old(data).turn < u32::MAX,
    ensures
        turn_processed(*old(data), *final(data)),
{
    data.turn = data.turn + 1;
    let ghost d1 = *data;
    process_light_burn(data, rng);
    let ghost d2 = *data;
    roll_light_event(data, rng);
    let ghost d3 = *data;
    roll_encounter(data, rng, false);
    proof {
        let event = choose|event: Option<Seq<char>>|
            {
                &&& drawn_from(strings_view(d2.torch_event_table@), event)
                &&& #[trigger] d3.log_view() == logged_if_some(d2.log_view(), d2.turn as nat, event)
            };
        let (hit, pick) = choose|hit: bool, pick: Option<Seq<char>>|
            {
                &&& exists|roll: u32| #[trigger] hit_by_roll(hit, roll)
                &&& hit ==> drawn_from(strings_view(d3.encounter_table@), pick)
                &&& #[trigger] data.log_view() == logged(
                    d3.log_view(),
                    d3.turn as nat,
                    encounter_text(hit, pick),
                )
            };
        assert(data.log_view() == logged(
            logged_if_some(old(data).log_view(), data.turn as nat, event),
            data.turn as nat,
            encounter_text(hit, pick),
        ));
    }
}

/// The game clock may take `secs` more seconds without overflow, counting
/// the turn that this would fire.
pub open spec fn tick_in_range(d: ShadowtrackData, secs: u64) -> bool {
    let m = (d.clock_elapsed + secs) / 60;
    &&& d.clock_elapsed + secs <= u64::MAX
    &&& (d.next_process_minutes matches Some(n) && m >= n) ==> {
        &&& d.turn < u32::MAX
        &&& m + d.process_interval_minutes <= u64::MAX
    }
}

/// `b` is `a` after the running clock took `secs` seconds: game time grows by
/// `secs`; an unarmed trigger is armed at one interval without a turn; an
/// armed trigger that the elapsed minutes reached fires one turn and moves
/// to the elapsed minutes plus one interval; otherwise nothing else changes.
pub open spec fn ticked(a: ShadowtrackData, b: ShadowtrackData, secs: u64) -> bool {
    let c = (a.clock_elapsed + secs) as u64;
    let m = c / 60;
    let advanced = ShadowtrackData { clock_elapsed: c, ..a };
    match a.next_process_minutes {
        None => b == ShadowtrackData {
            next_process_minutes: Some(a.process_interval_minutes),
            ..advanced
        },
        Some(n) => if m >= n {
            &&& turn_processed(advanced, ShadowtrackData { next_process_minutes: Some(n), ..b })
            &&& b.next_process_minutes == Some((m + a.process_interval_minutes) as u64)
        } else {
            b == advanced
        },
    }
}

/// Tells whether the running clock may take `secs` more seconds.
pub fn tick_fits(data: &ShadowtrackData, secs: u64) -> (r: bool)
    ensures
        r == tick_in_range(*data, secs),
{
    if secs > u64::MAX - data.clock_elapsed {
        return false;
    }
    let minutes = (data.clock_elapsed + secs) / 60;
    match data.next_process_minutes {
        Some(next) if minutes >= next => {
            data.turn < u32::MAX && data.process_interval_minutes <= u64::MAX - minutes
        },
        _ => true,
    }
}

/// Advances the running game clock by `secs` seconds and fires a turn when
/// the next minute boundary is reached (at most one turn per call).
pub fn on_tick<R: RandomSource>(data: &mut ShadowtrackData, secs: u64, rng: &mut R)
    requires
        tick_in_range(*old(data), secs),
    ensures
        ticked(*old(data), *final(data), secs),
{
    data.clock_elapsed = data.clock_elapsed + secs;
    let elapsed_minutes = data.clock_elapsed / 60;
    match data.next_process_minutes {
        Some(next_minutes) => {
            if elapsed_minutes >= next_minutes {
                process_turn(data, rng);
                data.next_process_minutes = Some(elapsed_minutes + data.process_interval_minutes);
            }
        },
        None => {
            data.next_process_minutes = Some(data.process_interval_minutes);
        },
    }
}

} // verus!
