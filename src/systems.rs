//! The per-turn pipeline: writing to the log, burning down lights, the
//! ambient event roll and the encounter roll.
use crate::rng::RandomSource;
use crate::state::{strings_view, LightSource, ShadowtrackData, TurnEntry, TurnRecord};
use vstd::prelude::*;

verus! {

/// `i` is the first entry of `log` that belongs to `turn`.
pub open spec fn first_entry_of(log: Seq<TurnRecord>, turn: nat, i: int) -> bool {
    &&& 0 <= i < log.len()
    &&& log[i].turn == turn
    &&& forall|j: int| 0 <= j < i ==> log[j].turn != turn
}

/// The log after `text` was written for `turn`: appended to the turn's first
/// entry, or in a new entry at the end when the turn has none.
pub open spec fn logged(log: Seq<TurnRecord>, turn: nat, text: Seq<char>) -> Seq<TurnRecord> {
    if exists|i: int| first_entry_of(log, turn, i) {
        let i = choose|i: int| first_entry_of(log, turn, i);
        log.update(i, TurnRecord { turn, events: log[i].events.push(text) })
    } else {
        log.push(TurnRecord { turn, events: seq![text] })
    }
}

/// `b` is `a` with, at most, another event log.
pub open spec fn same_but_log(a: ShadowtrackData, b: ShadowtrackData) -> bool {
    b == ShadowtrackData { event_log: b.event_log, ..a }
}

/// Writes `event_desc` into the entry of the current turn, creating that
/// entry when the turn has none yet.
pub fn log_event(data: &mut ShadowtrackData, event_desc: &str)
    ensures
        final(data).log_view() == logged(old(data).log_view(), old(data).turn as nat, event_desc@),
        same_but_log(*old(data), *final(data)),
{
    let ghost log0 = data.log_view();
    let mut i: usize = 0;
    while i < data.event_log.len()
        invariant
            *data == *old(data),
            log0 == data.log_view(),
            i <= data.event_log@.len(),
            forall|j: int| 0 <= j < i ==> log0[j].turn != data.turn as nat,
        decreases data.event_log@.len() - i,
    {
        if data.event_log[i].turn == data.turn {
            let text = event_desc.to_owned();
            data.event_log[i].events.push(text);
            proof {
                let turn = old(data).turn as nat;
                assert(first_entry_of(log0, turn, i as int));
                let k = choose|k: int| first_entry_of(log0, turn, k);
                assert(k == i as int);
                let e0 = old(data).event_log@[i as int];
                let e1 = data.event_log@[i as int];
                assert(e1.turn == e0.turn);
                assert(e1.events@ == e0.events@.push(text));
                assert(strings_view(e1.events@) =~= strings_view(e0.events@).push(event_desc@));
                assert(data.event_log@ =~= old(data).event_log@.update(i as int, e1));
                assert(data.log_view() =~= log0.update(
                    i as int,
                    TurnRecord { turn, events: log0[i as int].events.push(event_desc@) },
                ));
            }
            return;
        }
        i += 1;
    }
    let mut entry = TurnEntry::default();
    entry.turn = data.turn;
    entry.events.push(event_desc.to_owned());
    data.event_log.push(entry);
    proof {
        let turn = old(data).turn as nat;
        assert(!exists|k: int| first_entry_of(log0, turn, k));
        assert(strings_view(entry.events@) =~= seq![event_desc@]);
        assert(data.log_view() =~= log0.push(TurnRecord { turn, events: seq![event_desc@] }));
    }
}

/// The log after writing each of `texts`, in order, for `turn`.
pub open spec fn logged_all(log: Seq<TurnRecord>, turn: nat, texts: Seq<Seq<char>>) -> Seq<
    TurnRecord,
>
    decreases texts.len(),
{
    if texts.len() == 0 {
        log
    } else {
        logged(logged_all(log, turn, texts.drop_last()), turn, texts.last())
    }
}

/// Lines written one after another for a turn that has no entry yet end up
/// in exactly one new entry for that turn, holding them in the order written;
/// the earlier entries stay as they were.
pub proof fn lemma_one_entry_per_turn(log: Seq<TurnRecord>, turn: nat, texts: Seq<Seq<char>>)
    requires
        texts.len() > 0,
        forall|j: int| 0 <= j < log.len() ==> #[trigger] log[j].turn != turn,
    ensures
        logged_all(log, turn, texts) == log.push(TurnRecord { turn, events: texts }),
        exists|i: int|
            {
                &&& 0 <= i < logged_all(log, turn, texts).len()
                &&& #[trigger] logged_all(log, turn, texts)[i] == TurnRecord { turn, events: texts }
                &&& forall|j: int|
                    0 <= j < logged_all(log, turn, texts).len() && j != i
                        ==> #[trigger] logged_all(log, turn, texts)[j].turn != turn
            },
    decreases texts.len(),
{
    let before = texts.drop_last();
    if before.len() == 0 {
        assert(logged_all(log, turn, before) == log);
        assert(!exists|k: int| first_entry_of(log, turn, k));
        assert(seq![texts.last()] =~= texts);
    } else {
        lemma_one_entry_per_turn(log, turn, before);
        let l1 = log.push(TurnRecord { turn, events: before });
        let n = log.len() as int;
        assert(first_entry_of(l1, turn, n));
        let k = choose|k: int| first_entry_of(l1, turn, k);
        assert(k == n);
        assert(before.push(texts.last()) =~= texts);
        assert(l1.update(n, TurnRecord { turn, events: before.push(texts.last()) }) =~= log.push(
            TurnRecord { turn, events: texts },
        ));
    }
    let r = log.push(TurnRecord { turn, events: texts });
    assert(logged_all(log, turn, texts) == r);
    assert(r[log.len() as int] == TurnRecord { turn, events: texts });
    assert forall|j: int| 0 <= j < r.len() && j != log.len() as int implies #[trigger] r[j].turn
        != turn by {
        assert(r[j] == log[j]);
    }
}

/// `m` less `k`, and never below zero.
pub open spec fn minus_floor0(m: u32, k: u32) -> u32 {
    if m >= k {
        (m - k) as u32
    } else {
        0
    }
}

/// Minutes left after one turn of burning with burn-check `roll`: ten, and
/// ten more on a roll of two or less.
pub open spec fn burned_minutes(m: u32, roll: u32) -> u32 {
    if roll <= 2 {
        minus_floor0(minus_floor0(m, 10), 10)
    } else {
        minus_floor0(m, 10)
    }
}

/// `n` is light `o` after one turn of burning, with the roll it records.
pub open spec fn burned_light(o: LightSource, n: LightSource) -> bool {
    &&& n.last_roll matches Some(r)
    &&& 1 <= r <= 6
    &&& n == LightSource {
        minutes_remaining: burned_minutes(o.minutes_remaining, r as u32),
        last_roll: Some(r),
        ..o
    }
}

/// Burns `light` down for one turn, given the turn's burn-check roll.
pub fn apply_burn_roll(light: &mut LightSource, roll: u32)
    requires
        1 <= roll <= 6,
    ensures
        *final(light) == (LightSource {
            minutes_remaining: burned_minutes(old(light).minutes_remaining, roll),
            last_roll: Some(roll as u8),
            ..*old(light)
        }),
{
    light.minutes_remaining = light.minutes_remaining.saturating_sub(10);
    light.last_roll = Some(roll as u8);
    if roll <= 2 {
        light.minutes_remaining = light.minutes_remaining.saturating_sub(10);
    }
}

/// Burns every light down for one turn, each with a roll of its own.
pub fn process_light_burn<R: RandomSource>(data: &mut ShadowtrackData, rng: &mut R)
    ensures
        final(data).light_sources@.len() == old(data).light_sources@.len(),
        forall|i: int|
            0 <= i < old(data).light_sources@.len() ==> burned_light(
                #[trigger] old(data).light_sources@[i],
                final(data).light_sources@[i],
            ),
        *final(data) == (ShadowtrackData { light_sources: final(data).light_sources, ..*old(data) }),
{
    let mut i: usize = 0;
    while i < data.light_sources.len()
        invariant
            *data == (ShadowtrackData { light_sources: data.light_sources, ..*old(data) }),
            data.light_sources@.len() == old(data).light_sources@.len(),
            i <= data.light_sources@.len(),
            forall|j: int|
                0 <= j < i ==> burned_light(
                    #[trigger] old(data).light_sources@[j],
                    data.light_sources@[j],
                ),
            forall|j: int|
                i <= j < data.light_sources@.len() ==> #[trigger] data.light_sources@[j]
                    == old(data).light_sources@[j],
        decreases data.light_sources@.len() - i,
    {
        let roll = rng.roll_range(1, 6);
        apply_burn_roll(&mut data.light_sources[i], roll);
        i += 1;
    }
}

/// `hit` is what an unforced d6 `roll` decides: an encounter on a 1.
pub open spec fn hit_by_roll(hit: bool, roll: u32) -> bool {
    1 <= roll <= 6 && hit == (roll == 1)
}

/// Whether an encounter happens: when forced, or on a d6 roll of 1.
pub fn is_encounter(forced: bool, roll: u32) -> (r: bool)
    ensures
        r == (forced || roll == 1),
{
    forced || roll == 1
}

/// What a table can give: an entry of it, or nothing exactly
/// when it is empty.
pub open spec fn drawn_from(table: Seq<Seq<char>>, pick: Option<Seq<char>>) -> bool {
    match pick {
        Some(e) => table.contains(e),
        None => table.len() == 0,
    }
}

/// Draws an ambient event from the event table and logs it; an empty table
/// logs nothing.
pub fn roll_light_event<R: RandomSource>(data: &mut ShadowtrackData, rng: &mut R)
    ensures
        old(data).torch_event_table@.len() == 0 ==> *final(data) == *old(data),
        exists|event: Option<Seq<char>>|
            {
                &&& drawn_from(strings_view(old(data).torch_event_table@), event)
                &&& #[trigger] final(data).log_view() == logged_if_some(
                    old(data).log_view(),
                    old(data).turn as nat,
                    event,
                )
            },
        same_but_log(*old(data), *final(data)),
{
    let ghost table = strings_view(data.torch_event_table@);
    if let Some(event) = rng.choose_from(data.torch_event_table.as_slice()) {
        let text = event.clone();
        proof {
            let k = choose|k: int|
                0 <= k < data.torch_event_table@.len() && data.torch_event_table@[k] == *event;
            assert(table[k] == text@);
            assert(drawn_from(table, Some(text@)));
        }
        log_event(data, text.as_str());
    } else {
        assert(drawn_from(table, None));
    }
}

/// The log after writing `event`, if there is one, for `turn`.
pub open spec fn logged_if_some(log: Seq<TurnRecord>, turn: nat, event: Option<Seq<char>>) -> Seq<
    TurnRecord,
> {
    match event {
        Some(t) => logged(log, turn, t),
        None => log,
    }
}

/// The log line of an encounter check: `hit` tells whether an encounter
/// happened, `pick` what the encounter table gave.
pub open spec fn encounter_text(hit: bool, pick: Option<Seq<char>>) -> Seq<char> {
    if !hit {
        "No encounter"@
    } else {
        match pick {
            Some(e) => "!ENCOUNTER! - "@ + e,
            None => "[Error] Encounter table empty!"@,
        }
    }
}

/// The log line of an encounter check, given whether an encounter happened
/// and what the encounter table gave.
pub fn encounter_log_line(hit: bool, pick: Option<&String>) -> (r: String)
    ensures
        r@ == encounter_text(
            hit,
            match pick {
                Some(e) => Some(e@),
                None => None,
            },
        ),
{
    if !hit {
        "No encounter".to_owned()
    } else {
        match pick {
            Some(e) => {
                let mut s = "!ENCOUNTER! - ".to_owned();
                s.append(e.as_str());
                s
            },
            None => "[Error] Encounter table empty!".to_owned(),
        }
    }
}

/// Checks for an encounter (forced, or on a 1 in 6) and logs the outcome.
pub fn roll_encounter<R: RandomSource>(data: &mut ShadowtrackData, rng: &mut R, forced_encounter: bool)
    ensures
        exists|hit: bool, pick: Option<Seq<char>>|
            {
                &&& forced_encounter ==> hit
                &&& !forced_encounter ==> exists|roll: u32| #[trigger] hit_by_roll(hit, roll)
                &&& hit ==> drawn_from(strings_view(old(data).encounter_table@), pick)
                &&& #[trigger] final(data).log_view() == logged(
                    old(data).log_view(),
                    old(data).turn as nat,
                    encounter_text(hit, pick),
                )
            },
        same_but_log(*old(data), *final(data)),
{
    let hit = if forced_encounter {
        true
    } else {
        let roll = rng.roll_range(1, 6);
        let h = is_encounter(forced_encounter, roll);
        assert(hit_by_roll(h, roll));
        h
    };
    let ghost table = strings_view(data.encounter_table@);
    let line = if hit {
        let pick = rng.choose_from(data.encounter_table.as_slice());
        proof {
            if let Some(e) = pick {
                let k = choose|k: int|
                    0 <= k < data.encounter_table@.len() && data.encounter_table@[k] == *e;
                assert(table[k] == e@);
            }
        }
        encounter_log_line(true, pick)
    } else {
        encounter_log_line(false, None)
    };
    log_event(data, line.as_str());
}

} // verus!
