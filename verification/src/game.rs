use vstd::prelude::*;

use crate::input::Input;

verus! {

/// The key code of the space bar: its position in winit's `KeyCode` list.
pub const KEY_SPACE: u32 = 62;

/// The key code of the tab key: its position in winit's `KeyCode` list.
pub const KEY_TAB: u32 = 63;

/// What one update of the demo game has to show.
#[derive(Clone, Copy, Debug, PartialEq, Eq, Structural)]
pub struct UpdateReport {
    /// The counter after this update, when the space bar is held.
    pub id: Option<i32>,
    /// Whether the tab key is held.
    pub tab_pressed: bool,
}

/// A demo game: a counter that climbs while the space bar is held.
pub struct Test {
    id: i32,
}

impl Test {
    /// A game whose counter starts at zero.
    pub fn new() -> (game: Self)
        ensures
            game.id() == 0,
    {
        Test { id: 0 }
    }

    /// The counter.
    pub closed spec fn id(&self) -> i32 {
        self.id
    }

    /// The counter.
    pub fn counter(&self) -> (id: i32)
        ensures
            id == self.id(),
    {
        self.id
    }

    /// One step of the game: while the space bar is held the counter goes up
    /// by one and is shown; whether the tab key is held is reported too.
    pub fn update(&mut self, input: &Input) -> (report: UpdateReport)
        requires
            input@.contains(KEY_SPACE) ==> old(self).id() < i32::MAX,
        ensures
            input@.contains(KEY_SPACE) ==> final(self).id() == old(self).id() + 1 && report.id
                == Some(final(self).id()),
            !input@.contains(KEY_SPACE) ==> final(self).id() == old(self).id() && report.id
                == None::<i32>,
            report.tab_pressed == input@.contains(KEY_TAB),
    {
        let mut id = None;
        if input.is_key_pressed(KEY_SPACE) {
            self.id = self.id + 1;
            id = Some(self.id);
        }
        let tab_pressed = input.is_key_pressed(KEY_TAB);
        UpdateReport { id, tab_pressed }
    }
}

} // verus!
