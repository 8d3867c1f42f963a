//! The session's data: light sources, the roll tables, the clock fields and
//! the per-turn event log.
use vstd::prelude::*;

verus! {

/// What a log line looks like to the contracts: its characters.
pub open spec fn strings_view(v: Seq<String>) -> Seq<Seq<char>> {
    v.map_values(|s: String| s@)
}

/// The kind of a light source; a spell carries its name.
#[derive(Clone, PartialEq, Debug)]
pub enum LightSourceType {
    Torch,
    Lantern,
    Spell(String),
}

impl Default for LightSourceType {
    fn default() -> (r: Self)
        ensures
            r is Torch,
    {
        LightSourceType::Torch
    }
}

impl LightSourceType {
    /// The characters of `display_string`.
    pub open spec fn display_view(&self) -> Seq<char> {
        match self {
            LightSourceType::Torch => "Torch"@,
            LightSourceType::Lantern => "Lantern"@,
            LightSourceType::Spell(name) => "Spell( "@ + name@ + " )"@,
        }
    }

    /// The name shown for this kind of light.
    pub fn display_string(&self) -> (r: String)
        ensures
            r@ == self.display_view(),
    {
        match self {
            LightSourceType::Torch => "Torch".to_owned(),
            LightSourceType::Lantern => "Lantern".to_owned(),
            LightSourceType::Spell(name) => {
                let mut s = "Spell( ".to_owned();
                s.append(name.as_str());
                s.append(" )");
                s
            },
        }
    }
}

/// One light carried by the party.
#[derive(Clone, PartialEq, Debug, Default)]
pub struct LightSource {
    pub label: String,
    pub light_type: LightSourceType,
    pub radius_feet: u32,
    pub minutes_remaining: u32,
    pub last_roll: Option<u8>,
}

/// The log lines of one turn, in the order they were written.
#[derive(Clone, PartialEq, Debug)]
pub struct TurnEntry {
    pub turn: u32,
    pub events: Vec<String>,
}

/// A log entry as the contracts see it.
pub struct TurnRecord {
    pub turn: nat,
    pub events: Seq<Seq<char>>,
}

impl View for TurnEntry {
    type V = TurnRecord;

    open spec fn view(&self) -> TurnRecord {
        TurnRecord { turn: self.turn as nat, events: strings_view(self.events@) }
    }
}

impl Default for TurnEntry {
    fn default() -> (r: Self)
        ensures
            r.turn == 0,
            r.events@.len() == 0,
    {
        TurnEntry { turn: 0, events: Vec::new() }
    }
}

/// The encounter table a new session starts with.
pub open spec fn default_encounter_table() -> Seq<Seq<char>> {
    seq![
        "Goblin scouts"@,
        "Skeleton patrol"@,
        "Oozing slime"@,
        "Lost adventurer"@,
        "Swarm of bats"@,
        "Mimic chest"@,
    ]
}

/// The ambient event table a new session starts with.
pub open spec fn default_torch_event_table() -> Seq<Seq<char>> {
    seq![
        "You hear a distant moan in the dark..."@,
        "A gust of wind threatens to blow out a torch."@,
        "You stumble over loose stones, nearly falling."@,
        "The smell of sulfur fills the air."@,
        "Whispers echo from nowhere."@,
        "A rat darts between your feet."@,
    ]
}

/// Minutes between two turns in a new session.
pub const DEFAULT_PROCESS_INTERVAL_MINUTES: u64 = 10;

/// The whole state of a session.
#[derive(Debug, Clone, PartialEq)]
pub struct ShadowtrackData {
    pub turn: u32,
    pub light_sources: Vec<LightSource>,
    pub encounter_table: Vec<String>,
    pub torch_event_table: Vec<String>,
    pub encounter_roll: Option<u8>,
    pub event_log: Vec<TurnEntry>,
    /// Game time in seconds.
    pub clock_elapsed: u64,
    /// The elapsed minute at which the next turn fires; `None` until armed.
    pub next_process_minutes: Option<u64>,
    pub process_interval_minutes: u64,
    pub new_light_type: LightSourceType,
    pub new_light_label: String,
    pub new_light_minutes: u32,
    pub new_light_range: u32,
}

impl ShadowtrackData {
    /// The event log as the contracts see it.
    pub open spec fn log_view(&self) -> Seq<TurnRecord> {
        self.event_log@.map_values(|e: TurnEntry| e@)
    }
}

fn strings_of(items: &[&str]) -> (r: Vec<String>)
    ensures
        r@.len() == items@.len(),
        forall|i: int| 0 <= i < items@.len() ==> #[trigger] r@[i]@ == items@[i]@,
{
    let mut r: Vec<String> = Vec::new();
    let mut i: usize = 0;
    while i < items.len()
        invariant
            i <= items@.len(),
            r@.len() == i,
            forall|j: int| 0 <= j < i ==> #[trigger] r@[j]@ == items@[j]@,
        decreases items@.len() - i,
    {
        r.push(items[i].to_owned());
        i += 1;
    }
    r
}

/// `d` is the state of a new session.
pub open spec fn is_fresh(d: ShadowtrackData) -> bool {
    &&& d.turn == 0
    &&& d.light_sources@.len() == 0
    &&& strings_view(d.encounter_table@) == default_encounter_table()
    &&& strings_view(d.torch_event_table@) == default_torch_event_table()
    &&& d.encounter_roll is None
    &&& d.event_log@.len() == 0
    &&& d.clock_elapsed == 0
    &&& d.next_process_minutes is None
    &&& d.process_interval_minutes == DEFAULT_PROCESS_INTERVAL_MINUTES
    &&& d.new_light_type is Torch
    &&& d.new_light_label@.len() == 0
    &&& d.new_light_minutes == 60
    &&& d.new_light_range == 30
}

impl Default for ShadowtrackData {
    fn default() -> (r: Self)
        ensures
            is_fresh(r),
    {
        let encounters = [
            "Goblin scouts",
            "Skeleton patrol",
            "Oozing slime",
            "Lost adventurer",
            "Swarm of bats",
            "Mimic chest",
        ];
        let events = [
            "You hear a distant moan in the dark...",
            "A gust of wind threatens to blow out a torch.",
            "You stumble over loose stones, nearly falling.",
            "The smell of sulfur fills the air.",
            "Whispers echo from nowhere.",
            "A rat darts between your feet.",
        ];
        let encounter_table = strings_of(encounters.as_slice());
        let torch_event_table = strings_of(events.as_slice());
        assert(strings_view(encounter_table@) =~= default_encounter_table());
        assert(strings_view(torch_event_table@) =~= default_torch_event_table());
        ShadowtrackData {
            turn: 0,
            light_sources: Vec::new(),
            encounter_table,
            torch_event_table,
            encounter_roll: None,
            event_log: Vec::new(),
            clock_elapsed: 0,
            next_process_minutes: None,
            process_interval_minutes: DEFAULT_PROCESS_INTERVAL_MINUTES,
            new_light_type: LightSourceType::Torch,
            new_light_label: String::new(),
            new_light_minutes: 60,
            new_light_range: 30,
        }
    }
}

/// The label of the light kind chosen in the "add light" form.
pub fn new_light_type_label(data: &ShadowtrackData) -> (r: String)
    ensures
        r@ == match data.new_light_type {
            LightSourceType::Torch => "Torch"@,
            LightSourceType::Lantern => "Lantern"@,
            LightSourceType::Spell(name) => "Spell ("@ + name@ + ")"@,
        },
{
    match &data.new_light_type {
        LightSourceType::Torch => "Torch".to_owned(),
        LightSourceType::Lantern => "Lantern".to_owned(),
        LightSourceType::Spell(name) => {
            let mut s = "Spell (".to_owned();
            s.append(name.as_str());
            s.append(")");
            s
        },
    }
}

} // verus!
