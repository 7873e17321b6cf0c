use triple_trouble_splitter::acts::Act;
use triple_trouble_splitter::machine::{ActStateMachine, NumericActStateMachine};
use triple_trouble_splitter::policy::Settings;
use triple_trouble_splitter::sampler::room_name;

#[test]
fn data_select_then_game_start_starts() {
    let mut s = Settings::default();
    s.start = true;
    let mut m = ActStateMachine::new();
    m.update(b"rmDataSelect");
    m.update(b"rmGameStart");
    assert!(m.should_start(&s));
}

#[test]
fn zone_zero_then_great_turquoise_splits() {
    let mut s = Settings::default();
    s.zone_zero = true;
    let mut m = ActStateMachine::new();
    m.update(b"rmZONE0");
    m.update(b"rmGTZ1");
    assert!(m.should_split(&s));
}

#[test]
fn unreadable_room_keeps_act_and_does_not_split() {
    let s = Settings::default();
    let mut m = ActStateMachine::new();
    // a room name that could not be read comes through as an empty name
    let samples: [Vec<u8>; 3] = [room_name(b"rmGTZ1\0"), room_name(b""), room_name(b"rmGTZ1\0")];
    for sample in samples.iter() {
        m.update(sample);
        let p = m.act.pair.unwrap();
        assert_eq!((p.old, p.current), (Act::GreatTurquoise1, Act::GreatTurquoise1));
        assert!(!m.should_split(&s));
    }
}

#[test]
fn numeric_rooms_zone_zero_to_great_turquoise() {
    let s = Settings::default();
    let mut m = NumericActStateMachine::new();
    m.update(41);
    assert_eq!(m.act.pair.unwrap().current, Act::ZoneZero);
    m.update(42);
    let p = m.act.pair.unwrap();
    assert_eq!((p.old, p.current), (Act::ZoneZero, Act::GreatTurquoise1));
    assert!(m.should_split(&s));
}

#[test]
fn numeric_credit_codes() {
    for code in [0u32, 1, 2, 9] {
        let mut m = NumericActStateMachine::new();
        m.update(code);
        assert_eq!(m.act.pair.unwrap().current, Act::Credits);
    }
}

#[test]
fn numeric_start_and_reset() {
    let s = Settings::default();
    let mut m = NumericActStateMachine::new();
    m.update(10);
    m.update(12);
    assert!(m.should_start(&s));
    assert!(m.should_reset(&s));
    m.update(12);
    assert!(!m.should_start(&s));
}
