use vstd::prelude::*;
use crate::acts::{Act, GameState};
use crate::machine::{Pair, ActStateMachine, NumericActStateMachine};

verus! {

/// Which timer actions are enabled: auto start, auto reset, and one toggle
/// per level entry, named after the level that is left.
#[derive(Clone, Copy, Debug)]
pub struct Settings {
    pub start: bool,
    pub reset: bool,
    pub zone_zero: bool,
    pub angel_island: bool,
    pub great_turquoise_1: bool,
    pub great_turquoise_2: bool,
    pub sunset_park_1: bool,
    pub sunset_park_2: bool,
    pub sunset_park_3: bool,
    pub meta_junglira_1: bool,
    pub meta_junglira_2: bool,
    pub egg_zeppelin: bool,
    pub robotnik_winter_1: bool,
    pub robotnik_winter_2: bool,
    pub purple_palace: bool,
    pub tidal_plant_1: bool,
    pub tidal_plant_2: bool,
    pub tidal_plant_3: bool,
    pub atomic_destroyer_1: bool,
    pub atomic_destroyer_2: bool,
    pub atomic_destroyer_3: bool,
    pub final_trouble: bool,
}

impl Settings {
    /// Whether every toggle is on.
    pub open spec fn all_enabled(self) -> bool {
        &&& self.start && self.reset
        &&& self.zone_zero && self.angel_island
        &&& self.great_turquoise_1 && self.great_turquoise_2
        &&& self.sunset_park_1 && self.sunset_park_2 && self.sunset_park_3
        &&& self.meta_junglira_1 && self.meta_junglira_2 && self.egg_zeppelin
        &&& self.robotnik_winter_1 && self.robotnik_winter_2 && self.purple_palace
        &&& self.tidal_plant_1 && self.tidal_plant_2 && self.tidal_plant_3
        &&& self.atomic_destroyer_1 && self.atomic_destroyer_2 && self.atomic_destroyer_3
        &&& self.final_trouble
    }
}

impl Default for Settings {
    /// Every toggle on.
    fn default() -> (r: Settings)
        ensures
            r.all_enabled(),
    {
        Settings {
            start: true,
            reset: true,
            zone_zero: true,
            angel_island: true,
            great_turquoise_1: true,
            great_turquoise_2: true,
            sunset_park_1: true,
            sunset_park_2: true,
            sunset_park_3: true,
            meta_junglira_1: true,
            meta_junglira_2: true,
            egg_zeppelin: true,
            robotnik_winter_1: true,
            robotnik_winter_2: true,
            purple_palace: true,
            tidal_plant_1: true,
            tidal_plant_2: true,
            tidal_plant_3: true,
            atomic_destroyer_1: true,
            atomic_destroyer_2: true,
            atomic_destroyer_3: true,
            final_trouble: true,
        }
    }
}

/// Whether entering `cur` from `old` is a split: each level has its
/// admissible predecessors, each gated by its own toggle.
pub open spec fn split_spec(old: Act, cur: Act, s: Settings) -> bool {
    match cur {
        Act::GreatTurquoise1 => (s.zone_zero && old == Act::ZoneZero) || (s.angel_island && old
            == Act::AngelIsland),
        Act::GreatTurquoise2 => s.great_turquoise_1 && old == Act::GreatTurquoise1,
        Act::SunsetPark1 => s.great_turquoise_2 && old == Act::GreatTurquoise2,
        Act::SunsetPark2 => s.sunset_park_1 && old == Act::SunsetPark1,
        Act::SunsetPark3 => s.sunset_park_2 && old == Act::SunsetPark2,
        Act::MetaJunglira1 => s.sunset_park_3 && old == Act::SunsetPark3,
        Act::MetaJunglira2 => s.meta_junglira_1 && old == Act::MetaJunglira1,
        Act::EggZeppelin => s.meta_junglira_2 && old == Act::MetaJunglira2,
        Act::RobotnikWinter1 => s.egg_zeppelin && old == Act::EggZeppelin,
        Act::RobotnikWinter2 => s.robotnik_winter_1 && old == Act::RobotnikWinter1,
        Act::PurplePalace => s.robotnik_winter_2 && old == Act::RobotnikWinter2,
        Act::TidalPlant1 => (s.robotnik_winter_2 && old == Act::RobotnikWinter2) || (
        s.purple_palace && old == Act::PurplePalace),
        Act::TidalPlant2 => s.tidal_plant_1 && old == Act::TidalPlant1,
        Act::TidalPlant3 => s.tidal_plant_2 && old == Act::TidalPlant2,
        Act::AtomicDestroyer1 => s.tidal_plant_3 && old == Act::TidalPlant3,
        Act::AtomicDestroyer2 => s.atomic_destroyer_1 && old == Act::AtomicDestroyer1,
        Act::AtomicDestroyer3 => s.atomic_destroyer_2 && old == Act::AtomicDestroyer2,
        Act::FinalTrouble => s.atomic_destroyer_3 && old == Act::AtomicDestroyer3,
        Act::Credits => (s.atomic_destroyer_3 && old == Act::AtomicDestroyer3) || (s.final_trouble
            && old == Act::FinalTrouble),
        _ => false,
    }
}

/// The toggle that gates the level entry from `pred` to `target`, read in
/// `s`; `None` where that entry is not in the transition graph.
pub open spec fn edge_toggle(pred: Act, target: Act, s: Settings) -> Option<bool> {
    match (pred, target) {
        (Act::ZoneZero, Act::GreatTurquoise1) => Some(s.zone_zero),
        (Act::AngelIsland, Act::GreatTurquoise1) => Some(s.angel_island),
        (Act::GreatTurquoise1, Act::GreatTurquoise2) => Some(s.great_turquoise_1),
        (Act::GreatTurquoise2, Act::SunsetPark1) => Some(s.great_turquoise_2),
        (Act::SunsetPark1, Act::SunsetPark2) => Some(s.sunset_park_1),
        (Act::SunsetPark2, Act::SunsetPark3) => Some(s.sunset_park_2),
        (Act::SunsetPark3, Act::MetaJunglira1) => Some(s.sunset_park_3),
        (Act::MetaJunglira1, Act::MetaJunglira2) => Some(s.meta_junglira_1),
        (Act::MetaJunglira2, Act::EggZeppelin) => Some(s.meta_junglira_2),
        (Act::EggZeppelin, Act::RobotnikWinter1) => Some(s.egg_zeppelin),
        (Act::RobotnikWinter1, Act::RobotnikWinter2) => Some(s.robotnik_winter_1),
        (Act::RobotnikWinter2, Act::PurplePalace) => Some(s.robotnik_winter_2),
        (Act::RobotnikWinter2, Act::TidalPlant1) => Some(s.robotnik_winter_2),
        (Act::PurplePalace, Act::TidalPlant1) => Some(s.purple_palace),
        (Act::TidalPlant1, Act::TidalPlant2) => Some(s.tidal_plant_1),
        (Act::TidalPlant2, Act::TidalPlant3) => Some(s.tidal_plant_2),
        (Act::TidalPlant3, Act::AtomicDestroyer1) => Some(s.tidal_plant_3),
        (Act::AtomicDestroyer1, Act::AtomicDestroyer2) => Some(s.atomic_destroyer_1),
        (Act::AtomicDestroyer2, Act::AtomicDestroyer3) => Some(s.atomic_destroyer_2),
        (Act::AtomicDestroyer3, Act::FinalTrouble) => Some(s.atomic_destroyer_3),
        (Act::AtomicDestroyer3, Act::Credits) => Some(s.atomic_destroyer_3),
        (Act::FinalTrouble, Act::Credits) => Some(s.final_trouble),
        _ => None,
    }
}

/// Whether entering `cur` from `old` is a split.
pub fn split_allowed(old: Act, cur: Act, s: &Settings) -> (r: bool)
    ensures
        r == split_spec(old, cur, *s),
{
    match cur {
        Act::GreatTurquoise1 => (s.zone_zero && old == Act::ZoneZero) || (s.angel_island && old
            == Act::AngelIsland),
        Act::GreatTurquoise2 => s.great_turquoise_1 && old == Act::GreatTurquoise1,
        Act::SunsetPark1 => s.great_turquoise_2 && old == Act::GreatTurquoise2,
        Act::SunsetPark2 => s.sunset_park_1 && old == Act::SunsetPark1,
        Act::SunsetPark3 => s.sunset_park_2 && old == Act::SunsetPark2,
        Act::MetaJunglira1 => s.sunset_park_3 && old == Act::SunsetPark3,
        Act::MetaJunglira2 => s.meta_junglira_1 && old == Act::MetaJunglira1,
        Act::EggZeppelin => s.meta_junglira_2 && old == Act::MetaJunglira2,
        Act::RobotnikWinter1 => s.egg_zeppelin && old == Act::EggZeppelin,
        Act::RobotnikWinter2 => s.robotnik_winter_1 && old == Act::RobotnikWinter1,
        Act::PurplePalace => s.robotnik_winter_2 && old == Act::RobotnikWinter2,
        Act::TidalPlant1 => (s.robotnik_winter_2 && old == Act::RobotnikWinter2) || (
        s.purple_palace && old == Act::PurplePalace),
        Act::TidalPlant2 => s.tidal_plant_1 && old == Act::TidalPlant1,
        Act::TidalPlant3 => s.tidal_plant_2 && old == Act::TidalPlant2,
        Act::AtomicDestroyer1 => s.tidal_plant_3 && old == Act::TidalPlant3,
        Act::AtomicDestroyer2 => s.atomic_destroyer_1 && old == Act::AtomicDestroyer1,
        Act::AtomicDestroyer3 => s.atomic_destroyer_2 && old == Act::AtomicDestroyer2,
        Act::FinalTrouble => s.atomic_destroyer_3 && old == Act::AtomicDestroyer3,
        Act::Credits => (s.atomic_destroyer_3 && old == Act::AtomicDestroyer3) || (s.final_trouble
            && old == Act::FinalTrouble),
        _ => false,
    }
}

/// Whether the act pair calls for a split.
pub open spec fn split_due(p: Option<Pair<Act>>, s: Settings) -> bool {
    p matches Some(q) && split_spec(q.old, q.current, s)
}

/// Whether the game went from the save-select screen into gameplay.
pub open spec fn game_begins(p: Option<Pair<GameState>>) -> bool {
    p matches Some(q) && q.old == GameState::DataSelect && q.current == GameState::GameStart
}

/// The raw state of the save-select screen, in builds with numeric rooms.
pub const DATA_SELECT_CODE: u32 = 10;

/// The raw state of the start of gameplay, in builds with numeric rooms.
pub const GAME_START_CODE: u32 = 12;

/// Whether the raw state went from the save-select screen into gameplay.
pub open spec fn code_begins(p: Option<Pair<u32>>) -> bool {
    p matches Some(q) && q.old == DATA_SELECT_CODE && q.current == GAME_START_CODE
}

/// What the timer reports about itself.
#[derive(Clone, Copy, Debug, PartialEq, Eq, Structural)]
pub enum TimerPhase {
    NotRunning,
    Running,
    Paused,
    /// Any other phase (ended, or one that is not known).
    Other,
}

/// What to do to a timer that is running or paused.
#[derive(Clone, Copy, Debug, PartialEq, Eq, Structural)]
pub enum TimerCommand {
    Nothing,
    Reset,
    Split,
}

/// The command for a timer in `phase`: only a running or paused timer is
/// reset or split, and a reset takes the place of a split.
pub open spec fn command_spec(phase: TimerPhase, reset: bool, split: bool) -> TimerCommand {
    if (phase == TimerPhase::Running || phase == TimerPhase::Paused) && reset {
        TimerCommand::Reset
    } else if (phase == TimerPhase::Running || phase == TimerPhase::Paused) && split {
        TimerCommand::Split
    } else {
        TimerCommand::Nothing
    }
}

fn command(phase: TimerPhase, reset: bool, split: bool) -> (r: TimerCommand)
    ensures
        r == command_spec(phase, reset, split),
{
    match phase {
        TimerPhase::Running | TimerPhase::Paused => {
            if reset {
                TimerCommand::Reset
            } else if split {
                TimerCommand::Split
            } else {
                TimerCommand::Nothing
            }
        },
        _ => TimerCommand::Nothing,
    }
}

impl ActStateMachine {
    /// Whether the timer should start now.
    pub fn should_start(&self, s: &Settings) -> (r: bool)
        ensures
            r == (s.start && game_begins(self.state.pair)),
    {
        s.start && self.begins()
    }

    /// Whether the timer should reset now.
    pub fn should_reset(&self, s: &Settings) -> (r: bool)
        ensures
            r == (s.reset && game_begins(self.state.pair)),
    {
        s.reset && self.begins()
    }

    /// Whether the timer should split now.
    pub fn should_split(&self, s: &Settings) -> (r: bool)
        ensures
            r == split_due(self.act.pair, *s),
    {
        match self.act.pair {
            Some(p) => split_allowed(p.old, p.current, s),
            None => false,
        }
    }

    fn begins(&self) -> (r: bool)
        ensures
            r == game_begins(self.state.pair),
    {
        match self.state.pair {
            Some(p) => p.old == GameState::DataSelect && p.current == GameState::GameStart,
            None => false,
        }
    }

    /// The command for a timer in `phase`, with reset checked before split.
    pub fn running_command(&self, phase: TimerPhase, s: &Settings) -> (r: TimerCommand)
        ensures
            r == command_spec(
                phase,
                s.reset && game_begins(self.state.pair),
                split_due(self.act.pair, *s),
            ),
    {
        let reset = self.should_reset(s);
        let split = self.should_split(s);
        command(phase, reset, split)
    }

    /// Whether a timer in `phase` should be started now: only one that is
    /// not running.
    pub fn start_due(&self, phase: TimerPhase, s: &Settings) -> (r: bool)
        ensures
            r == (phase == TimerPhase::NotRunning && s.start && game_begins(self.state.pair)),
    {
        match phase {
            TimerPhase::NotRunning => self.should_start(s),
            _ => false,
        }
    }
}

impl NumericActStateMachine {
    /// Whether the timer should start now.
    pub fn should_start(&self, s: &Settings) -> (r: bool)
        ensures
            r == (s.start && code_begins(self.state.pair)),
    {
        s.start && self.begins()
    }

    /// Whether the timer should reset now.
    pub fn should_reset(&self, s: &Settings) -> (r: bool)
        ensures
            r == (s.reset && code_begins(self.state.pair)),
    {
        s.reset && self.begins()
    }

    /// Whether the timer should split now.
    pub fn should_split(&self, s: &Settings) -> (r: bool)
        ensures
            r == split_due(self.act.pair, *s),
    {
        match self.act.pair {
            Some(p) => split_allowed(p.old, p.current, s),
            None => false,
        }
    }

    fn begins(&self) -> (r: bool)
        ensures
            r == code_begins(self.state.pair),
    {
        match self.state.pair {
            Some(p) => p.old == DATA_SELECT_CODE && p.current == GAME_START_CODE,
            None => false,
        }
    }
}

/// A level entry splits exactly when it is an edge of the transition graph
/// and the toggle of that edge is on.
pub proof fn lemma_split_iff_edge_enabled(old: Act, cur: Act, s: Settings)
    ensures
        split_spec(old, cur, s) == (edge_toggle(old, cur, s) == Some(true)),
{
}

/// Feeding a room of the predecessor and then a room of the target of an
/// edge of the transition graph splits exactly when that edge's toggle is
/// on.
pub proof fn lemma_split_round_trip(
    m: ActStateMachine,
    first: Seq<u8>,
    second: Seq<u8>,
    pred: Act,
    target: Act,
    s: Settings,
)
    requires
        crate::acts::act_of_room_spec(first) == Some(pred),
        crate::acts::act_of_room_spec(second) == Some(target),
        edge_toggle(pred, target, s) is Some,
    ensures
        edge_toggle(pred, target, s) == Some(
            split_due(m.updated(first).updated(second).act.pair, s),
        ),
{
    lemma_split_iff_edge_enabled(pred, target, s);
}

/// Great Turquoise 1 has two entries: from Zone Zero it splits by the
/// `zone_zero` toggle alone, from Angel Island by the `angel_island` toggle
/// alone.
pub proof fn lemma_fan_in(s: Settings)
    ensures
        split_spec(Act::ZoneZero, Act::GreatTurquoise1, s) == s.zone_zero,
        split_spec(Act::AngelIsland, Act::GreatTurquoise1, s) == s.angel_island,
{
}

/// A save-select room followed by a game-start room starts the timer
/// exactly when auto start is on, and resets it exactly when auto reset is
/// on, the one toggle apart from the other.
pub proof fn lemma_start_reset(m: ActStateMachine, first: Seq<u8>, second: Seq<u8>, s: Settings)
    requires
        crate::acts::game_state_of_room_spec(first) == GameState::DataSelect,
        crate::acts::game_state_of_room_spec(second) == GameState::GameStart,
    ensures
        (s.start && game_begins(m.updated(first).updated(second).state.pair)) == s.start,
        (s.reset && game_begins(m.updated(first).updated(second).state.pair)) == s.reset,
{
}

} // verus!
