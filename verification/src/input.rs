use std::collections::HashSet;
use vstd::prelude::*;

use crate::event::{ElementState, PhysicalKey, WindowEvent};

verus! {

/// The set of keys held down after `event`, when `keys` were held before it.
///
/// A press of an identified key adds it, a release removes it; every other
/// event leaves the set as it was.
pub open spec fn keys_after(keys: Set<u32>, event: WindowEvent) -> Set<u32> {
    match event {
        WindowEvent::KeyboardInput { state: ElementState::Pressed, physical_key: PhysicalKey::Code(k) } =>
            keys.insert(k),
        WindowEvent::KeyboardInput { state: ElementState::Released, physical_key: PhysicalKey::Code(k) } =>
            keys.remove(k),
        _ => keys,
    }
}

/// The set of keys held down after the events `events`, applied in order,
/// when `keys` were held before the first of them.
pub open spec fn keys_after_all(keys: Set<u32>, events: Seq<WindowEvent>) -> Set<u32>
    decreases events.len(),
{
    if events.len() == 0 {
        keys
    } else {
        keys_after(keys_after_all(keys, events.drop_last()), events.last())
    }
}

/// What the last keyboard event about `key` among `events` did to it, if
/// any of them speaks of it.
pub open spec fn last_change(events: Seq<WindowEvent>, key: u32) -> Option<ElementState>
    decreases events.len(),
{
    if events.len() == 0 {
        None
    } else {
        match events.last() {
            WindowEvent::KeyboardInput { state, physical_key: PhysicalKey::Code(k) } if k == key =>
                Some(state),
            _ => last_change(events.drop_last(), key),
        }
    }
}

/// A key is held after a run of events exactly when the last event about it
/// was a press; when no event speaks of it, it is held exactly when it was
/// held before.
pub proof fn lemma_held_iff_last_pressed(keys: Set<u32>, events: Seq<WindowEvent>, key: u32)
    ensures
        keys_after_all(keys, events).contains(key) == match last_change(events, key) {
            Some(ElementState::Pressed) => true,
            Some(ElementState::Released) => false,
            None => keys.contains(key),
        },
    decreases events.len(),
{
    if events.len() > 0 {
        lemma_held_iff_last_pressed(keys, events.drop_last(), key);
    }
}

/// An event that is not a keyboard event about `key` leaves `key` as it was.
pub proof fn lemma_other_events_keep_key(keys: Set<u32>, event: WindowEvent, key: u32)
    requires
        !(event matches WindowEvent::KeyboardInput { physical_key: PhysicalKey::Code(k), .. } && k == key),
    ensures
        keys_after(keys, event).contains(key) == keys.contains(key),
{
}

/// Pressing a key makes it held and releasing it makes it not held,
/// whatever was held before.
pub proof fn lemma_press_release(keys: Set<u32>, key: u32)
    ensures
        keys_after(
            keys,
            WindowEvent::KeyboardInput { state: ElementState::Pressed, physical_key: PhysicalKey::Code(key) },
        ).contains(key),
        !keys_after(
            keys,
            WindowEvent::KeyboardInput { state: ElementState::Released, physical_key: PhysicalKey::Code(key) },
        ).contains(key),
{
}

/// Events that are not keyboard events with an identified key leave the
/// whole set unchanged.
pub proof fn lemma_non_key_events_keep_set(keys: Set<u32>, event: WindowEvent)
    requires
        !(event matches WindowEvent::KeyboardInput { physical_key: PhysicalKey::Code(_), .. }),
    ensures
        keys_after(keys, event) == keys,
{
}

/// Keyboard state: the keys that are currently held down.
pub struct Input {
    keys_pressed: HashSet<u32>,
}

impl View for Input {
    type V = Set<u32>;

    closed spec fn view(&self) -> Set<u32> {
        self.keys_pressed@
    }
}

impl Input {
    /// An input state with no key held.
    pub fn new() -> (input: Self)
        ensures
            input@ == Set::<u32>::empty(),
    {
        Input { keys_pressed: HashSet::new() }
    }

    /// Records a window event: a press of an identified key marks it as
    /// held, a release clears it, and nothing else changes the state.
    pub fn update_keys(&mut self, event: &WindowEvent)
        ensures
            final(self)@ == keys_after(old(self)@, *event),
            (*event matches WindowEvent::KeyboardInput {
                state: ElementState::Pressed,
                physical_key: PhysicalKey::Code(k),
            } ==> final(self)@ == old(self)@.insert(k)),
            (*event matches WindowEvent::KeyboardInput {
                state: ElementState::Released,
                physical_key: PhysicalKey::Code(k),
            } ==> final(self)@ == old(self)@.remove(k)),
            !(*event matches WindowEvent::KeyboardInput { physical_key: PhysicalKey::Code(_), .. })
                ==> final(self)@ == old(self)@,
    {
        if let WindowEvent::KeyboardInput { state, physical_key: PhysicalKey::Code(key) } = event {
            match state {
                ElementState::Pressed => {
                    self.keys_pressed.insert(*key);
                },
                ElementState::Released => {
                    self.keys_pressed.remove(key);
                },
            }
        }
    }

    /// Whether `key` is currently held down.
    pub fn is_key_pressed(&self, key: u32) -> (pressed: bool)
        ensures
            pressed == self@.contains(key),
    {
        self.keys_pressed.contains(&key)
    }
}

} // verus!
