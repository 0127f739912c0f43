//! A small windowed game engine: keyboard state, surface sizing, the
//! decisions of the event loop and the queue of draw commands.
//!
//! Window creation, the GPU and the clock are driven by the host program;
//! everything that decides what happens next lives in this crate.

pub mod control;
pub mod event;
pub mod game;
pub mod input;
pub mod render;
pub mod state;

pub use event::{ElementState, PhysicalKey, WindowEvent};
pub use state::{PhysicalSize, State, SurfaceCapabilities, SurfaceConfiguration};
pub use control::{LoopAction, LoopState, SurfaceError};
