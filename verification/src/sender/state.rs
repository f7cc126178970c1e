//! The state of the sender, and how key events change it.
use vstd::prelude::*;

verus! {

/// An event that a worker task hands to the orchestrator.
#[derive(Clone, Copy, Debug, PartialEq, Eq, Structural)]
pub enum Events {
    /// Key index, and whether the key is now down.
    KeyPressed(u8, bool),
}

/// The central state of the sender, shared between tasks.
#[derive(Clone, Copy, Debug, PartialEq, Eq, Structural)]
pub struct State {
    pub key0_pressed: bool,
    pub key1_pressed: bool,
}

impl State {
    /// No key is down.
    pub fn new() -> (state: Self)
        ensures
            !state.key0_pressed,
            !state.key1_pressed,
    {
        State { key0_pressed: false, key1_pressed: false }
    }

    /// The state after one event: the named key is as the event says, the other as it was. An
    /// event of a key that the matrix does not have changes nothing.
    pub open spec fn after(self, event: Events) -> State {
        let Events::KeyPressed(key, pressed) = event;
        State {
            key0_pressed: if key == 0 { pressed } else { self.key0_pressed },
            key1_pressed: if key == 1 { pressed } else { self.key1_pressed },
        }
    }

    /// The state after a whole series of events.
    pub open spec fn after_all(self, events: Seq<Events>) -> State
        decreases events.len(),
    {
        if events.len() == 0 {
            self
        } else {
            self.after_all(events.drop_last()).after(events.last())
        }
    }
}

/// Takes one event into the state.
pub fn orchestrate(state: &mut State, event: Events)
    ensures
        *final(state) == old(state).after(event),
{
    match event {
        Events::KeyPressed(key, pressed) => match key {
            0 => state.key0_pressed = pressed,
            1 => state.key1_pressed = pressed,
            _ => {},
        },
    }
}

/// An event moves the key that it names, and nothing else.
pub proof fn law_event_moves_its_key(state: &mut State, key: u8, pressed: bool)
    requires
        call_ensures(orchestrate, (state, Events::KeyPressed(key, pressed)), ()),
    ensures
        key == 0 ==> final(state).key0_pressed == pressed,
        key != 0 ==> final(state).key0_pressed == old(state).key0_pressed,
        key == 1 ==> final(state).key1_pressed == pressed,
        key != 1 ==> final(state).key1_pressed == old(state).key1_pressed,
{
}

/// An event names a key.
pub open spec fn names(event: Events, key: u8) -> bool {
    let Events::KeyPressed(named, _) = event;
    named == key
}

/// The latest event of a key decides: after any events a key is as the last event that names it
/// says, and as it was before where none does.
pub proof fn law_latest_event_decides(state: State, events: Seq<Events>, latest: int, key: u8)
    requires
        -1 <= latest < events.len(),
        latest >= 0 ==> names(events[latest], key),
        forall|i: int| latest < i < events.len() ==> !names(#[trigger] events[i], key),
    ensures
        ({
            let reached = state.after_all(events);
            if latest >= 0 {
                let Events::KeyPressed(_, pressed) = events[latest];
                &&& key == 0 ==> reached.key0_pressed == pressed
                &&& key == 1 ==> reached.key1_pressed == pressed
            } else {
                &&& key == 0 ==> reached.key0_pressed == state.key0_pressed
                &&& key == 1 ==> reached.key1_pressed == state.key1_pressed
            }
        }),
    decreases events.len(),
{
    if events.len() > 0 && latest < events.len() - 1 {
        let earlier = events.drop_last();
        assert forall|i: int| latest < i < earlier.len() implies !names(
            #[trigger] earlier[i],
            key,
        ) by {
            assert(earlier[i] == events[i]);
        }
        law_latest_event_decides(state, earlier, latest, key);
        assert(!names(events[events.len() - 1], key));
    }
}

} // verus!
