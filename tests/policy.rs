use triple_trouble_splitter::acts::Act;
use triple_trouble_splitter::machine::ActStateMachine;
use triple_trouble_splitter::policy::{split_allowed, Settings, TimerCommand, TimerPhase};

fn room_of(act: Act) -> &'static str {
    match act {
        Act::AngelIsland => "rmAIZ",
        Act::ZoneZero => "rmZONE0",
        Act::GreatTurquoise1 => "rmGTZ1",
        Act::GreatTurquoise2 => "rmGTZ2",
        Act::SunsetPark1 => "rmSPZ1",
        Act::SunsetPark2 => "rmSPZ2",
        Act::SunsetPark3 => "rmSPZ3",
        Act::MetaJunglira1 => "rmMJZ1",
        Act::MetaJunglira2 => "rmMJZ2",
        Act::EggZeppelin => "rmEZZ",
        Act::RobotnikWinter1 => "rmRWZ1",
        Act::RobotnikWinter2 => "rmRWZ2",
        Act::PurplePalace => "rmPPZ",
        Act::TidalPlant1 => "rmTPZ1",
        Act::TidalPlant2 => "rmTPZ2",
        Act::TidalPlant3 => "rmTPZ3",
        Act::AtomicDestroyer1 => "rmADZ1",
        Act::AtomicDestroyer2 => "rmADZ2",
        Act::AtomicDestroyer3 => "rmADZ3",
        Act::FinalTrouble => "rmFinal",
        Act::Credits => "rmCredits",
        Act::Unknown => "",
    }
}

fn toggle<'a>(s: &'a mut Settings, name: &str) -> &'a mut bool {
    match name {
        "zone_zero" => &mut s.zone_zero,
        "angel_island" => &mut s.angel_island,
        "great_turquoise_1" => &mut s.great_turquoise_1,
        "great_turquoise_2" => &mut s.great_turquoise_2,
        "sunset_park_1" => &mut s.sunset_park_1,
        "sunset_park_2" => &mut s.sunset_park_2,
        "sunset_park_3" => &mut s.sunset_park_3,
        "meta_junglira_1" => &mut s.meta_junglira_1,
        "meta_junglira_2" => &mut s.meta_junglira_2,
        "egg_zeppelin" => &mut s.egg_zeppelin,
        "robotnik_winter_1" => &mut s.robotnik_winter_1,
        "robotnik_winter_2" => &mut s.robotnik_winter_2,
        "purple_palace" => &mut s.purple_palace,
        "tidal_plant_1" => &mut s.tidal_plant_1,
        "tidal_plant_2" => &mut s.tidal_plant_2,
        "tidal_plant_3" => &mut s.tidal_plant_3,
        "atomic_destroyer_1" => &mut s.atomic_destroyer_1,
        "atomic_destroyer_2" => &mut s.atomic_destroyer_2,
        "atomic_destroyer_3" => &mut s.atomic_destroyer_3,
        "final_trouble" => &mut s.final_trouble,
        _ => unreachable!(),
    }
}

fn edges() -> Vec<(Act, Act, &'static str)> {
    vec![
        (Act::ZoneZero, Act::GreatTurquoise1, "zone_zero"),
        (Act::AngelIsland, Act::GreatTurquoise1, "angel_island"),
        (Act::GreatTurquoise1, Act::GreatTurquoise2, "great_turquoise_1"),
        (Act::GreatTurquoise2, Act::SunsetPark1, "great_turquoise_2"),
        (Act::SunsetPark1, Act::SunsetPark2, "sunset_park_1"),
        (Act::SunsetPark2, Act::SunsetPark3, "sunset_park_2"),
        (Act::SunsetPark3, Act::MetaJunglira1, "sunset_park_3"),
        (Act::MetaJunglira1, Act::MetaJunglira2, "meta_junglira_1"),
        (Act::MetaJunglira2, Act::EggZeppelin, "meta_junglira_2"),
        (Act::EggZeppelin, Act::RobotnikWinter1, "egg_zeppelin"),
        (Act::RobotnikWinter1, Act::RobotnikWinter2, "robotnik_winter_1"),
        (Act::RobotnikWinter2, Act::PurplePalace, "robotnik_winter_2"),
        (Act::RobotnikWinter2, Act::TidalPlant1, "robotnik_winter_2"),
        (Act::PurplePalace, Act::TidalPlant1, "purple_palace"),
        (Act::TidalPlant1, Act::TidalPlant2, "tidal_plant_1"),
        (Act::TidalPlant2, Act::TidalPlant3, "tidal_plant_2"),
        (Act::TidalPlant3, Act::AtomicDestroyer1, "tidal_plant_3"),
        (Act::AtomicDestroyer1, Act::AtomicDestroyer2, "atomic_destroyer_1"),
        (Act::AtomicDestroyer2, Act::AtomicDestroyer3, "atomic_destroyer_2"),
        (Act::AtomicDestroyer3, Act::FinalTrouble, "atomic_destroyer_3"),
        (Act::AtomicDestroyer3, Act::Credits, "atomic_destroyer_3"),
        (Act::FinalTrouble, Act::Credits, "final_trouble"),
    ]
}

fn after(rooms: &[&str]) -> ActStateMachine {
    let mut m = ActStateMachine::new();
    for r in rooms {
        m.update(r.as_bytes());
    }
    m
}

#[test]
fn default_settings_enable_everything() {
    let s = Settings::default();
    assert!(s.start && s.reset && s.zone_zero && s.angel_island && s.final_trouble);
    assert!(s.purple_palace && s.tidal_plant_3 && s.atomic_destroyer_3);
}

#[test]
fn every_edge_splits_by_its_toggle() {
    for (pred, target, name) in edges() {
        let m = after(&[room_of(pred), room_of(target)]);
        let mut s = Settings::default();
        assert!(m.should_split(&s), "{:?} -> {:?}", pred, target);
        *toggle(&mut s, name) = false;
        assert!(!m.should_split(&s), "{:?} -> {:?}", pred, target);
    }
}

#[test]
fn non_edges_never_split() {
    let s = Settings::default();
    let all = [
        Act::AngelIsland, Act::ZoneZero, Act::GreatTurquoise1, Act::GreatTurquoise2,
        Act::SunsetPark1, Act::SunsetPark2, Act::SunsetPark3, Act::MetaJunglira1,
        Act::MetaJunglira2, Act::EggZeppelin, Act::RobotnikWinter1, Act::RobotnikWinter2,
        Act::PurplePalace, Act::TidalPlant1, Act::TidalPlant2, Act::TidalPlant3,
        Act::AtomicDestroyer1, Act::AtomicDestroyer2, Act::AtomicDestroyer3, Act::FinalTrouble,
        Act::Credits, Act::Unknown,
    ];
    let edge_list = edges();
    for old in all {
        for cur in all {
            let is_edge = edge_list.iter().any(|(p, t, _)| *p == old && *t == cur);
            assert_eq!(split_allowed(old, cur, &s), is_edge, "{:?} -> {:?}", old, cur);
        }
    }
}

#[test]
fn no_split_before_any_sample() {
    let m = ActStateMachine::new();
    assert!(!m.should_split(&Settings::default()));
    assert!(!m.should_start(&Settings::default()));
    assert!(!m.should_reset(&Settings::default()));
}

#[test]
fn fan_in_zone_zero_ignores_angel_island() {
    let m = after(&["rmZONE0", "rmGTZ1"]);
    for angel in [false, true] {
        let mut s = Settings::default();
        s.angel_island = angel;
        assert!(m.should_split(&s));
        s.zone_zero = false;
        assert!(!m.should_split(&s));
    }
}

#[test]
fn fan_in_angel_island_ignores_zone_zero() {
    let m = after(&["rmAIZ", "rmGTZ1"]);
    for zone_zero in [false, true] {
        let mut s = Settings::default();
        s.zone_zero = zone_zero;
        assert!(m.should_split(&s));
        s.angel_island = false;
        assert!(!m.should_split(&s));
    }
}

#[test]
fn start_and_reset_by_their_own_toggles() {
    let m = after(&["rmDataSelect", "rmGameStart"]);
    for start in [false, true] {
        for reset in [false, true] {
            let mut s = Settings::default();
            s.start = start;
            s.reset = reset;
            assert_eq!(m.should_start(&s), start);
            assert_eq!(m.should_reset(&s), reset);
        }
    }
}

#[test]
fn start_needs_the_transition() {
    let s = Settings::default();
    assert!(!after(&["rmGameStart"]).should_start(&s));
    assert!(!after(&["rmGameStart", "rmGameStart"]).should_start(&s));
    assert!(!after(&["rmDataSelect", "rmOther", "rmGameStart"]).should_start(&s));
}

#[test]
fn running_command_prefers_reset() {
    let s = Settings::default();
    let m = after(&["rmDataSelect", "rmGameStart"]);
    assert_eq!(m.running_command(TimerPhase::Running, &s), TimerCommand::Reset);
    assert_eq!(m.running_command(TimerPhase::Paused, &s), TimerCommand::Reset);
    assert_eq!(m.running_command(TimerPhase::NotRunning, &s), TimerCommand::Nothing);
    let m = after(&["rmGTZ1", "rmGTZ2"]);
    assert_eq!(m.running_command(TimerPhase::Running, &s), TimerCommand::Split);
    assert_eq!(m.running_command(TimerPhase::Other, &s), TimerCommand::Nothing);
    let m = after(&["rmGTZ2", "rmGTZ2"]);
    assert_eq!(m.running_command(TimerPhase::Running, &s), TimerCommand::Nothing);
}

#[test]
fn start_due_only_when_not_running() {
    let s = Settings::default();
    let m = after(&["rmDataSelect", "rmGameStart"]);
    assert!(m.start_due(TimerPhase::NotRunning, &s));
    assert!(!m.start_due(TimerPhase::Running, &s));
    assert!(!m.start_due(TimerPhase::Paused, &s));
    assert!(!m.start_due(TimerPhase::Other, &s));
}
