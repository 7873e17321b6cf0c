use vstd::prelude::*;
use vstd::string::StringSliceAdditionalSpecFns;

verus! {

/// The canonical levels of the game, in order of progression, with the
/// secret zone, the finale, the credits and a sentinel for "no level yet".
#[derive(Clone, Copy, Debug, PartialEq, Eq, Structural)]
pub enum Act {
    AngelIsland,
    ZoneZero,
    GreatTurquoise1,
    GreatTurquoise2,
    SunsetPark1,
    SunsetPark2,
    SunsetPark3,
    MetaJunglira1,
    MetaJunglira2,
    EggZeppelin,
    RobotnikWinter1,
    RobotnikWinter2,
    PurplePalace,
    TidalPlant1,
    TidalPlant2,
    TidalPlant3,
    AtomicDestroyer1,
    AtomicDestroyer2,
    AtomicDestroyer3,
    FinalTrouble,
    Credits,
    Unknown,
}

/// The coarse state of the game that start and reset look at.
#[derive(Clone, Copy, Debug, PartialEq, Eq, Structural)]
pub enum GameState {
    DataSelect,
    GameStart,
    Other,
}

/// Whether two byte strings are equal.
pub fn bytes_equal(a: &[u8], b: &[u8]) -> (r: bool)
    ensures
        r == (a@ == b@),
{
    if a.len() != b.len() {
        return false;
    }
    let mut i: usize = 0;
    while i < a.len()
        invariant
            a@.len() == b@.len(),
            0 <= i <= a@.len(),
            forall|k: int| 0 <= k < i ==> a@[k] == b@[k],
        decreases a@.len() - i,
    {
        if a[i] != b[i] {
            return false;
        }
        i = i + 1;
    }
    assert(a@ =~= b@);
    true
}

/// The act that a room name denotes, if the name is one of the known rooms.
pub open spec fn act_of_room_spec(t: Seq<u8>) -> Option<Act> {
    if t == "rmAIZ".spec_bytes() || t == "rmZONE0bit".spec_bytes() || t == "rmZIBbit".spec_bytes() {
        Some(Act::AngelIsland)
    } else if t == "rmZONE0".spec_bytes() {
        Some(Act::ZoneZero)
    } else if t == "rmGTZ1".spec_bytes() {
        Some(Act::GreatTurquoise1)
    } else if t == "rmGTZ2".spec_bytes() {
        Some(Act::GreatTurquoise2)
    } else if t == "rmSPZ1".spec_bytes() {
        Some(Act::SunsetPark1)
    } else if t == "rmSPZ2".spec_bytes() {
        Some(Act::SunsetPark2)
    } else if t == "rmSPZ3".spec_bytes() {
        Some(Act::SunsetPark3)
    } else if t == "rmMJZ1".spec_bytes() {
        Some(Act::MetaJunglira1)
    } else if t == "rmMJZ2".spec_bytes() {
        Some(Act::MetaJunglira2)
    } else if t == "rmEZZ".spec_bytes() {
        Some(Act::EggZeppelin)
    } else if t == "rmRWZ1".spec_bytes() {
        Some(Act::RobotnikWinter1)
    } else if t == "rmRWZ_Awa".spec_bytes() || t == "rmRWZ2".spec_bytes() {
        Some(Act::RobotnikWinter2)
    } else if t == "rmTPZ1".spec_bytes() {
        Some(Act::TidalPlant1)
    } else if t == "rmTPZ2".spec_bytes() {
        Some(Act::TidalPlant2)
    } else if t == "rmTPZ3".spec_bytes() {
        Some(Act::TidalPlant3)
    } else if t == "rmADZ1".spec_bytes() {
        Some(Act::AtomicDestroyer1)
    } else if t == "rmADZ2".spec_bytes() {
        Some(Act::AtomicDestroyer2)
    } else if t == "rmADZ3".spec_bytes() {
        Some(Act::AtomicDestroyer3)
    } else if t == "rmFinal".spec_bytes() {
        Some(Act::FinalTrouble)
    } else if t == "rmPPZ".spec_bytes() {
        Some(Act::PurplePalace)
    } else if t == "rmFinalEnding".spec_bytes() || t == "rmKnuxEnding".spec_bytes()
        || t == "rmKnuxEnding2".spec_bytes() || t == "rmCredits".spec_bytes() {
        Some(Act::Credits)
    } else {
        None
    }
}

/// Whether `t` is the room name `name`.
fn is_room(t: &[u8], name: &str) -> (r: bool)
    ensures
        r == (t@ == name.spec_bytes()),
{
    bytes_equal(t, name.as_bytes())
}

/// Looks a room name up in the table of known rooms.
pub fn act_of_room(t: &[u8]) -> (r: Option<Act>)
    ensures
        r == act_of_room_spec(t@),
{
    if is_room(t, "rmAIZ") || is_room(t, "rmZONE0bit") || is_room(t, "rmZIBbit") {
        Some(Act::AngelIsland)
    } else if is_room(t, "rmZONE0") {
        Some(Act::ZoneZero)
    } else if is_room(t, "rmGTZ1") {
        Some(Act::GreatTurquoise1)
    } else if is_room(t, "rmGTZ2") {
        Some(Act::GreatTurquoise2)
    } else if is_room(t, "rmSPZ1") {
        Some(Act::SunsetPark1)
    } else if is_room(t, "rmSPZ2") {
        Some(Act::SunsetPark2)
    } else if is_room(t, "rmSPZ3") {
        Some(Act::SunsetPark3)
    } else if is_room(t, "rmMJZ1") {
        Some(Act::MetaJunglira1)
    } else if is_room(t, "rmMJZ2") {
        Some(Act::MetaJunglira2)
    } else if is_room(t, "rmEZZ") {
        Some(Act::EggZeppelin)
    } else if is_room(t, "rmRWZ1") {
        Some(Act::RobotnikWinter1)
    } else if is_room(t, "rmRWZ_Awa") || is_room(t, "rmRWZ2") {
        Some(Act::RobotnikWinter2)
    } else if is_room(t, "rmTPZ1") {
        Some(Act::TidalPlant1)
    } else if is_room(t, "rmTPZ2") {
        Some(Act::TidalPlant2)
    } else if is_room(t, "rmTPZ3") {
        Some(Act::TidalPlant3)
    } else if is_room(t, "rmADZ1") {
        Some(Act::AtomicDestroyer1)
    } else if is_room(t, "rmADZ2") {
        Some(Act::AtomicDestroyer2)
    } else if is_room(t, "rmADZ3") {
        Some(Act::AtomicDestroyer3)
    } else if is_room(t, "rmFinal") {
        Some(Act::FinalTrouble)
    } else if is_room(t, "rmPPZ") {
        Some(Act::PurplePalace)
    } else if is_room(t, "rmFinalEnding") || is_room(t, "rmKnuxEnding") || is_room(
        t,
        "rmKnuxEnding2",
    ) || is_room(t, "rmCredits") {
        Some(Act::Credits)
    } else {
        None
    }
}

/// The game state that a room name denotes: only the save-select room and
/// the game-start room are meaningful.
pub open spec fn game_state_of_room_spec(t: Seq<u8>) -> GameState {
    if t == "rmDataSelect".spec_bytes() {
        GameState::DataSelect
    } else if t == "rmGameStart".spec_bytes() {
        GameState::GameStart
    } else {
        GameState::Other
    }
}

/// Looks up the game state that a room name denotes.
pub fn game_state_of_room(t: &[u8]) -> (r: GameState)
    ensures
        r == game_state_of_room_spec(t@),
{
    if is_room(t, "rmDataSelect") {
        GameState::DataSelect
    } else if is_room(t, "rmGameStart") {
        GameState::GameStart
    } else {
        GameState::Other
    }
}

} // verus!
