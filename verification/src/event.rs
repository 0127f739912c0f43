use vstd::prelude::*;

verus! {

/// Whether a key went down or came back up.
#[derive(Clone, Copy, Debug, PartialEq, Eq, Structural)]
pub enum ElementState {
    Pressed,
    Released,
}

/// The physical key of a keyboard event: a known key code, or a key that
/// the windowing layer could not identify.
///
/// Key codes are the positions of the keys in winit's `KeyCode` list,
/// counted from zero (see [`crate::game::KEY_SPACE`]).
#[derive(Clone, Copy, Debug, PartialEq, Eq, Structural)]
pub enum PhysicalKey {
    Code(u32),
    Unidentified,
}

/// The window events the engine reacts to. Every other event of the window
/// is `Other`.
#[derive(Clone, Copy, Debug, PartialEq, Eq, Structural)]
pub enum WindowEvent {
    KeyboardInput { state: ElementState, physical_key: PhysicalKey },
    Resized { width: u32, height: u32 },
    CloseRequested,
    RedrawRequested,
    Other,
}

} // verus!
