use vstd::prelude::*;

use crate::event::WindowEvent;
use crate::input::{keys_after, keys_after_all, Input};
use crate::state::{is_drawable, state_after_resize, PhysicalSize, State, StateView};

verus! {

/// Why the surface could not hand out a frame to draw into.
#[derive(Clone, Copy, Debug, PartialEq, Eq, Structural)]
pub enum SurfaceError {
    Timeout,
    Outdated,
    Lost,
    OutOfMemory,
    Other,
}

/// What the host program does next on behalf of the event loop.
#[derive(Clone, Copy, Debug, PartialEq, Eq, Structural)]
pub enum LoopAction {
    /// Nothing to do.
    Nothing,
    /// Leave the event loop.
    Exit,
    /// Draw a frame and report how it went with [`LoopState::render_result`].
    Render,
    /// Configure the surface with the configuration that the loop's state
    /// now holds ([`LoopState::state`], then [`State::config`]).
    Configure,
}

/// The abstract state of the event loop.
pub ghost struct LoopView {
    pub state: StateView,
    pub keys: Set<u32>,
    pub surface_configured: bool,
}

/// The decisions of the event loop on one event of the engine's window:
/// the next state and what the host must do.
///
/// Every event first goes to the keyboard state. A close request ends the
/// loop. A resize marks the surface as configured and resizes the state; a
/// drawable size asks for the surface to be configured. A redraw request
/// draws a frame once the surface has been configured, and does nothing
/// before.
pub open spec fn on_window_event(s: LoopView, event: WindowEvent) -> (LoopView, LoopAction) {
    let s1 = LoopView { keys: keys_after(s.keys, event), ..s };
    match event {
        WindowEvent::CloseRequested => (s1, LoopAction::Exit),
        WindowEvent::Resized { width, height } => {
            let size = PhysicalSize { width, height };
            let st = state_after_resize(s1.state, size);
            (
                LoopView { state: st, surface_configured: true, ..s1 },
                if is_drawable(size) {
                    LoopAction::Configure
                } else {
                    LoopAction::Nothing
                },
            )
        },
        WindowEvent::RedrawRequested => (
            s1,
            if s.surface_configured {
                LoopAction::Render
            } else {
                LoopAction::Nothing
            },
        ),
        _ => (s1, LoopAction::Nothing),
    }
}

/// The decisions of the event loop on how drawing a frame went.
///
/// A lost or outdated surface is resized to the size it already has, which
/// configures it anew when that size is drawable. Running out of memory or
/// an unknown failure ends the loop. A timeout, like success, changes
/// nothing.
pub open spec fn on_render_result(s: LoopView, result: Result<(), SurfaceError>) -> (LoopView, LoopAction) {
    match result {
        Ok(()) => (s, LoopAction::Nothing),
        Err(SurfaceError::Lost) | Err(SurfaceError::Outdated) => {
            let st = state_after_resize(s.state, s.state.size);
            (
                LoopView { state: st, ..s },
                if is_drawable(s.state.size) {
                    LoopAction::Configure
                } else {
                    LoopAction::Nothing
                },
            )
        },
        Err(SurfaceError::OutOfMemory) | Err(SurfaceError::Other) => (s, LoopAction::Exit),
        Err(SurfaceError::Timeout) => (s, LoopAction::Nothing),
    }
}

/// The state of the event loop after the events `events` of its window,
/// taken in order from the state `s`.
pub open spec fn run_window_events(s: LoopView, events: Seq<WindowEvent>) -> LoopView
    decreases events.len(),
{
    if events.len() == 0 {
        s
    } else {
        on_window_event(run_window_events(s, events.drop_last()), events.last()).0
    }
}

/// Whether one of `events` is a resize of the window.
pub open spec fn has_resize(events: Seq<WindowEvent>) -> bool {
    exists|i: int| 0 <= i < events.len() && events[i] is Resized
}

/// The surface counts as configured after a run of events exactly when it
/// did before, or one of the events was a resize; and the keys held are
/// those that the keyboard state holds after the same events.
pub proof fn lemma_run_configured_and_keys(s: LoopView, events: Seq<WindowEvent>)
    ensures
        run_window_events(s, events).surface_configured == (s.surface_configured || has_resize(events)),
        run_window_events(s, events).keys == keys_after_all(s.keys, events),
    decreases events.len(),
{
    if events.len() > 0 {
        let prefix = events.drop_last();
        lemma_run_configured_and_keys(s, prefix);
        if has_resize(prefix) {
            let i = choose|i: int| 0 <= i < prefix.len() && prefix[i] is Resized;
            assert(events[i] is Resized);
        }
        if has_resize(events) && !(events.last() is Resized) {
            let i = choose|i: int| 0 <= i < events.len() && events[i] is Resized;
            assert(prefix[i] is Resized);
        }
        if events.last() is Resized {
            assert(events[events.len() - 1] is Resized);
        }
    }
}

/// From a loop whose surface is not configured yet, a redraw request draws
/// a frame exactly when one of the window's earlier events was a resize.
pub proof fn lemma_render_only_after_resize(s: LoopView, events: Seq<WindowEvent>)
    requires
        !s.surface_configured,
    ensures
        (on_window_event(run_window_events(s, events), WindowEvent::RedrawRequested).1
            == LoopAction::Render) == has_resize(events),
{
    lemma_run_configured_and_keys(s, events);
}

/// Only a close request makes a window event end the loop, and it always
/// does; only running out of memory or an unknown failure makes drawing a
/// frame end it.
pub proof fn lemma_exit_causes(s: LoopView, event: WindowEvent, result: Result<(), SurfaceError>)
    ensures
        (on_window_event(s, event).1 == LoopAction::Exit) == (event == WindowEvent::CloseRequested),
        (on_render_result(s, result).1 == LoopAction::Exit) == (result == Err::<(), SurfaceError>(
            SurfaceError::OutOfMemory,
        ) || result == Err::<(), SurfaceError>(SurfaceError::Other)),
{
}

/// Whenever the loop asks for the surface to be configured, the
/// configuration its state then holds has a drawable size; the state's
/// configuration always matches its size; and the outcome of drawing a frame
/// never changes the state.
pub proof fn lemma_configure_is_drawable(s: LoopView, event: WindowEvent, result: Result<(), SurfaceError>)
    requires
        s.state.config.width == s.state.size.width,
        s.state.config.height == s.state.size.height,
    ensures
        on_window_event(s, event).1 == LoopAction::Configure ==> on_window_event(s, event).0.state.config.width
            > 0 && on_window_event(s, event).0.state.config.height > 0,
        on_render_result(s, result).1 == LoopAction::Configure ==> on_render_result(s, result).0.state.config.width
            > 0 && on_render_result(s, result).0.state.config.height > 0,
        on_window_event(s, event).0.state.config.width == on_window_event(s, event).0.state.size.width,
        on_window_event(s, event).0.state.config.height == on_window_event(s, event).0.state.size.height,
        on_render_result(s, result).0.state == s.state,
{
    crate::state::lemma_resize_to_same_size(s.state);
}

/// A resize of the window to a size with no zero side always takes over
/// that size and asks for the surface to be configured, whatever size the
/// state had before; a resize with a zero side asks for nothing and keeps the
/// state's size. Either way the surface counts as configured afterwards.
pub proof fn lemma_resize_always_configures(s: LoopView, width: u32, height: u32)
    ensures
        on_window_event(s, WindowEvent::Resized { width, height }).0.surface_configured,
        width > 0 && height > 0 ==> on_window_event(s, WindowEvent::Resized { width, height }).1
            == LoopAction::Configure && on_window_event(
            s,
            WindowEvent::Resized { width, height },
        ).0.state.size == (PhysicalSize { width, height }),
        !(width > 0 && height > 0) ==> on_window_event(s, WindowEvent::Resized { width, height }).1
            == LoopAction::Nothing && on_window_event(
            s,
            WindowEvent::Resized { width, height },
        ).0.state == s.state,
{
}

/// A lost or outdated surface is configured anew exactly when its current
/// size has no zero side, and the state stays as it was.
pub proof fn lemma_lost_surface_reconfigured(s: LoopView, error: SurfaceError)
    requires
        error == SurfaceError::Lost || error == SurfaceError::Outdated,
        s.state.config.width == s.state.size.width,
        s.state.config.height == s.state.size.height,
    ensures
        (on_render_result(s, Err(error)).1 == LoopAction::Configure) == (s.state.size.width > 0
            && s.state.size.height > 0),
        (on_render_result(s, Err(error)).1 == LoopAction::Nothing) == !(s.state.size.width > 0
            && s.state.size.height > 0),
        on_render_result(s, Err(error)).0 == s,
{
    crate::state::lemma_resize_to_same_size(s.state);
}

/// The state that the event loop keeps between events: the surface's size
/// and configuration, the keyboard state, and whether the surface has been
/// configured yet.
pub struct LoopState {
    state: State,
    input: Input,
    surface_configured: bool,
}

impl View for LoopState {
    type V = LoopView;

    closed spec fn view(&self) -> LoopView {
        LoopView { state: self.state@, keys: self.input@, surface_configured: self.surface_configured }
    }
}

impl LoopState {
    /// The event loop's state before its first event: no key held and the
    /// surface not configured yet.
    pub fn new(state: State) -> (s: Self)
        ensures
            s@ == (LoopView { state: state@, keys: Set::<u32>::empty(), surface_configured: false }),
    {
        LoopState { state, input: Input::new(), surface_configured: false }
    }

    /// Takes one event of the engine's window and says what to do next.
    pub fn window_event(&mut self, event: WindowEvent) -> (action: LoopAction)
        ensures
            (final(self)@, action) == on_window_event(old(self)@, event),
            final(self)@.keys == keys_after(old(self)@.keys, event),
            (event matches WindowEvent::Resized { width, height } ==> {
                &&& final(self)@.surface_configured
                &&& width > 0 && height > 0 ==> action == LoopAction::Configure
                    && final(self)@.state.size == (PhysicalSize { width, height })
                    && final(self)@.state.config.width == width
                    && final(self)@.state.config.height == height
                &&& !(width > 0 && height > 0) ==> action == LoopAction::Nothing
                    && final(self)@.state == old(self)@.state
            }),
            !(event is Resized) ==> final(self)@.state == old(self)@.state
                && final(self)@.surface_configured == old(self)@.surface_configured,
            event == WindowEvent::CloseRequested ==> action == LoopAction::Exit,
            event == WindowEvent::RedrawRequested ==> action == (if old(self)@.surface_configured {
                LoopAction::Render
            } else {
                LoopAction::Nothing
            }),
            (event is KeyboardInput || event is Other) ==> action == LoopAction::Nothing,
    {
        self.input.update_keys(&event);
        match event {
            WindowEvent::CloseRequested => LoopAction::Exit,
            WindowEvent::Resized { width, height } => {
                self.surface_configured = true;
                if self.state.resize(PhysicalSize { width, height }) {
                    LoopAction::Configure
                } else {
                    LoopAction::Nothing
                }
            },
            WindowEvent::RedrawRequested => {
                if self.surface_configured {
                    LoopAction::Render
                } else {
                    LoopAction::Nothing
                }
            },
            _ => LoopAction::Nothing,
        }
    }

    /// Takes the outcome of drawing a frame and says what to do next.
    pub fn render_result(&mut self, result: Result<(), SurfaceError>) -> (action: LoopAction)
        ensures
            (final(self)@, action) == on_render_result(old(self)@, result),
            final(self)@ == old(self)@,
            result == Err::<(), SurfaceError>(SurfaceError::Lost) || result == Err::<(), SurfaceError>(
                SurfaceError::Outdated,
            ) ==> action == (if old(self)@.state.size.width > 0 && old(self)@.state.size.height > 0 {
                LoopAction::Configure
            } else {
                LoopAction::Nothing
            }),
            result == Err::<(), SurfaceError>(SurfaceError::OutOfMemory) || result == Err::<
                (),
                SurfaceError,
            >(SurfaceError::Other) ==> action == LoopAction::Exit,
            result == Ok::<(), SurfaceError>(()) || result == Err::<(), SurfaceError>(
                SurfaceError::Timeout,
            ) ==> action == LoopAction::Nothing,
    {
        proof {
            crate::state::lemma_config_matches_size(self.state);
            crate::state::lemma_resize_to_same_size(self.state@);
        }
        match result {
            Ok(()) => LoopAction::Nothing,
            Err(SurfaceError::Lost) | Err(SurfaceError::Outdated) => {
                let size = self.state.size();
                if self.state.resize(size) {
                    LoopAction::Configure
                } else {
                    LoopAction::Nothing
                }
            },
            Err(SurfaceError::OutOfMemory) | Err(SurfaceError::Other) => LoopAction::Exit,
            Err(SurfaceError::Timeout) => LoopAction::Nothing,
        }
    }

    /// The keyboard state.
    pub fn input(&self) -> (input: &Input)
        ensures
            input@ == self@.keys,
    {
        &self.input
    }

    /// The surface's size and configuration.
    pub fn state(&self) -> (state: &State)
        ensures
            state@ == self@.state,
    {
        &self.state
    }

    /// Whether the surface has been configured, which happens on the first
    /// resize of the window.
    pub fn surface_configured(&self) -> (configured: bool)
        ensures
            configured == self@.surface_configured,
    {
        self.surface_configured
    }
}

} // verus!
