use vstd::prelude::*;
use crate::acts::{Act, GameState, act_of_room, act_of_room_spec, game_state_of_room, game_state_of_room_spec};

verus! {

/// The value of an observed quantity at the previous update and now.
#[derive(Clone, Copy, Debug)]
pub struct Pair<T> {
    pub old: T,
    pub current: T,
}

/// An observed quantity: no pair before its first update.
#[derive(Clone, Copy, Debug)]
pub struct Watcher<T> {
    pub pair: Option<Pair<T>>,
}

impl<T: Copy> Watcher<T> {
    /// The watcher after recording `v`: the current value becomes the old
    /// one; on the first update both are `v`.
    pub open spec fn shifted(self, v: T) -> Watcher<T> {
        Watcher {
            pair: Some(
                Pair {
                    old: match self.pair {
                        Some(p) => p.current,
                        None => v,
                    },
                    current: v,
                },
            ),
        }
    }

    /// A watcher that has seen nothing.
    pub fn new() -> (r: Watcher<T>)
        ensures
            r.pair is None,
    {
        Watcher { pair: None }
    }

    /// Records `v` as the current value.
    pub fn update(&mut self, v: T)
        ensures
            *final(self) == old(self).shifted(v),
    {
        let old_value = match self.pair {
            Some(p) => p.current,
            None => v,
        };
        self.pair = Some(Pair { old: old_value, current: v });
    }
}

/// The act to record for a sample that denotes `mapped`: a sample of no
/// known act keeps the act recorded last, or the sentinel before any.
pub open spec fn next_act(prev: Option<Pair<Act>>, mapped: Option<Act>) -> Act {
    match mapped {
        Some(a) => a,
        None => match prev {
            Some(p) => p.current,
            None => Act::Unknown,
        },
    }
}

fn retain_unknown(prev: &Watcher<Act>, mapped: Option<Act>) -> (r: Act)
    ensures
        r == next_act(prev.pair, mapped),
{
    match mapped {
        Some(a) => a,
        None => match prev.pair {
            Some(p) => p.current,
            None => Act::Unknown,
        },
    }
}

/// Turns the stream of room names into the game state and the act, each
/// with its previous value.
#[derive(Clone, Copy, Debug)]
pub struct ActStateMachine {
    pub state: Watcher<GameState>,
    pub act: Watcher<Act>,
}

impl ActStateMachine {
    /// The machine after the sample `room`.
    pub open spec fn updated(self, room: Seq<u8>) -> ActStateMachine {
        ActStateMachine {
            state: self.state.shifted(game_state_of_room_spec(room)),
            act: self.act.shifted(next_act(self.act.pair, act_of_room_spec(room))),
        }
    }

    /// A machine that has seen no sample.
    pub fn new() -> (r: ActStateMachine)
        ensures
            r.state.pair is None,
            r.act.pair is None,
    {
        ActStateMachine { state: Watcher::new(), act: Watcher::new() }
    }

    /// Records the room name of this tick; an empty name stands for a room
    /// that could not be read.
    pub fn update(&mut self, room: &[u8])
        ensures
            *final(self) == old(self).updated(room@),
    {
        let state = game_state_of_room(room);
        let act = retain_unknown(&self.act, act_of_room(room));
        self.state.update(state);
        self.act.update(act);
    }
}

/// The act that a numeric room code denotes, for the codes that are known.
pub open spec fn act_of_code_spec(code: u32) -> Option<Act> {
    if code == 41 {
        Some(Act::ZoneZero)
    } else if code == 42 {
        Some(Act::GreatTurquoise1)
    } else if code == 0 || code == 1 || code == 2 || code == 9 {
        Some(Act::Credits)
    } else {
        None
    }
}

/// Looks a numeric room code up.
pub fn act_of_code(code: u32) -> (r: Option<Act>)
    ensures
        r == act_of_code_spec(code),
{
    if code == 41 {
        Some(Act::ZoneZero)
    } else if code == 42 {
        Some(Act::GreatTurquoise1)
    } else if code == 0 || code == 1 || code == 2 || code == 9 {
        Some(Act::Credits)
    } else {
        None
    }
}

/// The state machine of builds that expose the room as a number: the raw
/// number is kept as the state, and mapped to an act.
#[derive(Clone, Copy, Debug)]
pub struct NumericActStateMachine {
    pub state: Watcher<u32>,
    pub act: Watcher<Act>,
}

impl NumericActStateMachine {
    /// The machine after the sample `code`.
    pub open spec fn updated(self, code: u32) -> NumericActStateMachine {
        NumericActStateMachine {
            state: self.state.shifted(code),
            act: self.act.shifted(next_act(self.act.pair, act_of_code_spec(code))),
        }
    }

    /// A machine that has seen no sample.
    pub fn new() -> (r: NumericActStateMachine)
        ensures
            r.state.pair is None,
            r.act.pair is None,
    {
        NumericActStateMachine { state: Watcher::new(), act: Watcher::new() }
    }

    /// Records the room code of this tick.
    pub fn update(&mut self, code: u32)
        ensures
            *final(self) == old(self).updated(code),
    {
        let act = retain_unknown(&self.act, act_of_code(code));
        self.state.update(code);
        self.act.update(act);
    }
}

/// A known room name sets the current act to the act it denotes; an
/// unknown one leaves the current act as it was.
pub proof fn lemma_room_sample_act(m: ActStateMachine, room: Seq<u8>)
    ensures
        m.updated(room).act.pair is Some,
        act_of_room_spec(room) matches Some(a) ==> m.updated(room).act.pair->0.current == a,
        act_of_room_spec(room) is None && m.act.pair is Some ==> m.updated(room).act.pair->0.current
            == m.act.pair->0.current,
{
}

/// Two updates in a row with the same room name leave each pair with equal
/// old and current values.
pub proof fn lemma_update_twice(m: ActStateMachine, room: Seq<u8>)
    ensures
        m.updated(room).updated(room).state.pair matches Some(p) && p.old == p.current,
        m.updated(room).updated(room).act.pair matches Some(p) && p.old == p.current,
{
}

/// Two updates in a row with the same room code leave each pair with equal
/// old and current values.
pub proof fn lemma_numeric_update_twice(m: NumericActStateMachine, code: u32)
    ensures
        m.updated(code).updated(code).state.pair matches Some(p) && p.old == p.current,
        m.updated(code).updated(code).act.pair matches Some(p) && p.old == p.current,
{
}

} // verus!
