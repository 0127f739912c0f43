use vstd::prelude::*;

verus! {

/// A size in physical pixels.
#[derive(Clone, Copy, Debug, PartialEq, Eq, Structural)]
pub struct PhysicalSize {
    pub width: u32,
    pub height: u32,
}

/// What the engine knows of a surface's capabilities: for each supported
/// texture format, in the order the adapter lists them, whether it is an
/// sRGB format; and how many present modes and alpha modes it offers.
pub struct SurfaceCapabilities {
    pub format_is_srgb: Vec<bool>,
    pub present_mode_count: usize,
    pub alpha_mode_count: usize,
}

/// The texture usage bit that lets a texture be drawn into; it is the bit
/// of `RENDER_ATTACHMENT` in wgpu's `TextureUsages`.
pub const RENDER_ATTACHMENT: u32 = 16;

/// How the surface is configured. `usage` is a set of texture usage bits;
/// `format`, `present_mode` and `alpha_mode` are positions in the lists of
/// the surface's capabilities, and `view_formats` are positions in its list
/// of formats.
#[derive(Clone, Debug, PartialEq, Eq)]
pub struct SurfaceConfiguration {
    pub usage: u32,
    pub format: usize,
    pub width: u32,
    pub height: u32,
    pub present_mode: usize,
    pub alpha_mode: usize,
    pub desired_maximum_frame_latency: u32,
    pub view_formats: Vec<usize>,
}

/// The abstract value of a surface configuration.
pub ghost struct ConfigView {
    pub usage: u32,
    pub format: usize,
    pub width: u32,
    pub height: u32,
    pub present_mode: usize,
    pub alpha_mode: usize,
    pub desired_maximum_frame_latency: u32,
    pub view_formats: Seq<usize>,
}

impl View for SurfaceConfiguration {
    type V = ConfigView;

    open spec fn view(&self) -> ConfigView {
        ConfigView {
            usage: self.usage,
            format: self.format,
            width: self.width,
            height: self.height,
            present_mode: self.present_mode,
            alpha_mode: self.alpha_mode,
            desired_maximum_frame_latency: self.desired_maximum_frame_latency,
            view_formats: self.view_formats@,
        }
    }
}

/// The frame latency that the engine asks of every surface.
pub const FRAME_LATENCY: u32 = 2;

/// The position of the first sRGB format, or of the first format when none
/// is sRGB.
pub open spec fn preferred_format(format_is_srgb: Seq<bool>) -> int {
    if exists|i: int| 0 <= i < format_is_srgb.len() && format_is_srgb[i] {
        choose|i: int|
            0 <= i < format_is_srgb.len() && format_is_srgb[i] && forall|j: int|
                0 <= j < i ==> !format_is_srgb[j]
    } else {
        0
    }
}

/// Whether `index` is the position of the first sRGB format, or is the
/// first position when no format is sRGB.
pub open spec fn is_preferred_format(format_is_srgb: Seq<bool>, index: int) -> bool {
    &&& 0 <= index < format_is_srgb.len()
    &&& forall|j: int| 0 <= j < index ==> !format_is_srgb[j]
    &&& (format_is_srgb[index] || (index == 0 && forall|j: int|
        0 <= j < format_is_srgb.len() ==> !format_is_srgb[j]))
}

/// `preferred_format` names the one position that `is_preferred_format`
/// describes.
pub proof fn lemma_preferred_format(format_is_srgb: Seq<bool>, index: int)
    requires
        is_preferred_format(format_is_srgb, index),
    ensures
        preferred_format(format_is_srgb) == index,
{
    let s = format_is_srgb;
    if exists|i: int| 0 <= i < s.len() && s[i] {
        assert(s[index]);
        let p = preferred_format(s);
        if p < index {
            assert(!s[p]);
        }
        if index < p {
            assert(!s[index]);
        }
    }
}

/// Picks the surface format: the first sRGB one the surface offers, else
/// the first one it offers.
pub fn choose_surface_format(format_is_srgb: &Vec<bool>) -> (index: usize)
    requires
        format_is_srgb.len() > 0,
    ensures
        is_preferred_format(format_is_srgb@, index as int),
        index == preferred_format(format_is_srgb@),
        index < format_is_srgb.len(),
        forall|j: int| 0 <= j < index ==> !format_is_srgb@[j],
        format_is_srgb@[index as int] || (index == 0 && forall|j: int|
            0 <= j < format_is_srgb.len() ==> !format_is_srgb@[j]),
{
    let mut i: usize = 0;
    while i < format_is_srgb.len()
        invariant
            i <= format_is_srgb.len(),
            forall|j: int| 0 <= j < i ==> !format_is_srgb@[j],
        decreases format_is_srgb.len() - i,
    {
        if format_is_srgb[i] {
            proof {
                lemma_preferred_format(format_is_srgb@, i as int);
            }
            return i;
        }
        i = i + 1;
    }
    proof {
        lemma_preferred_format(format_is_srgb@, 0);
    }
    0
}

/// The configuration that a surface of size `size` with capabilities
/// `caps` receives: drawn into, in the preferred format, with the first
/// present mode and alpha mode, a frame latency of two and no further view
/// formats.
pub open spec fn initial_configuration(size: PhysicalSize, caps: SurfaceCapabilities) -> ConfigView {
    ConfigView {
        usage: RENDER_ATTACHMENT,
        format: preferred_format(caps.format_is_srgb@) as usize,
        width: size.width,
        height: size.height,
        present_mode: 0,
        alpha_mode: 0,
        desired_maximum_frame_latency: FRAME_LATENCY,
        view_formats: Seq::empty(),
    }
}

/// The abstract state of the window surface: its size and its configuration.
pub ghost struct StateView {
    pub size: PhysicalSize,
    pub config: ConfigView,
}

/// The window surface's configuration. The surface's size is the
/// configuration's width and height, so the two always agree.
pub struct State {
    config: SurfaceConfiguration,
}

impl View for State {
    type V = StateView;

    closed spec fn view(&self) -> StateView {
        StateView {
            size: PhysicalSize { width: self.config.width, height: self.config.height },
            config: self.config@,
        }
    }
}

/// The configuration `config` with its width and height set to `size`.
pub open spec fn resized_configuration(config: ConfigView, size: PhysicalSize) -> ConfigView {
    ConfigView { width: size.width, height: size.height, ..config }
}

/// A size that a surface can be configured with: neither side is zero.
pub open spec fn is_drawable(size: PhysicalSize) -> bool {
    size.width > 0 && size.height > 0
}

/// The state after a resize request to `new_size`: a drawable size is
/// taken over by the state and its configuration, any other request is
/// ignored.
pub open spec fn state_after_resize(s: StateView, new_size: PhysicalSize) -> StateView {
    if is_drawable(new_size) {
        StateView { size: new_size, config: resized_configuration(s.config, new_size) }
    } else {
        s
    }
}

impl State {
    /// The state of a surface of size `size`, configured to be drawn into
    /// with the first sRGB format it offers (else its first format), its
    /// first present mode and alpha mode, a frame latency of two and no
    /// further view formats.
    pub fn new(size: PhysicalSize, caps: &SurfaceCapabilities) -> (state: Self)
        requires
            caps.format_is_srgb.len() > 0,
            caps.present_mode_count > 0,
            caps.alpha_mode_count > 0,
        ensures
            state@.size == size,
            state@.config == initial_configuration(size, *caps),
            is_preferred_format(caps.format_is_srgb@, state@.config.format as int),
            state@.config.usage == RENDER_ATTACHMENT,
            state@.config.width == size.width,
            state@.config.height == size.height,
            state@.config.present_mode == 0,
            state@.config.alpha_mode == 0,
            state@.config.desired_maximum_frame_latency == 2,
            state@.config.view_formats.len() == 0,
            state@.config.format < caps.format_is_srgb.len(),
            forall|j: int| 0 <= j < state@.config.format ==> !caps.format_is_srgb@[j],
            caps.format_is_srgb@[state@.config.format as int] || (state@.config.format == 0 && forall|j: int|
                0 <= j < caps.format_is_srgb.len() ==> !caps.format_is_srgb@[j]),
    {
        let format = choose_surface_format(&caps.format_is_srgb);
        let config = SurfaceConfiguration {
            usage: RENDER_ATTACHMENT,
            format,
            width: size.width,
            height: size.height,
            present_mode: 0,
            alpha_mode: 0,
            desired_maximum_frame_latency: FRAME_LATENCY,
            view_formats: Vec::new(),
        };
        State { config }
    }

    /// The surface's size.
    pub fn size(&self) -> (size: PhysicalSize)
        ensures
            size == self@.size,
    {
        PhysicalSize { width: self.config.width, height: self.config.height }
    }

    /// The surface's configuration; its width and height are the surface's
    /// size.
    pub fn config(&self) -> (config: &SurfaceConfiguration)
        ensures
            config@ == self@.config,
            config.width == self@.size.width,
            config.height == self@.size.height,
    {
        &self.config
    }

    /// Takes over a new window size. A size with a zero side is ignored;
    /// any other becomes the state's size and its configuration's width and
    /// height. Returns whether the surface must be configured anew with
    /// [`State::config`].
    pub fn resize(&mut self, new_size: PhysicalSize) -> (reconfigure: bool)
        ensures
            reconfigure == is_drawable(new_size),
            final(self)@ == state_after_resize(old(self)@, new_size),
            reconfigure == (new_size.width > 0 && new_size.height > 0),
            new_size.width > 0 && new_size.height > 0 ==> {
                &&& final(self)@.size == new_size
                &&& final(self)@.config.width == new_size.width
                &&& final(self)@.config.height == new_size.height
                &&& final(self)@.config.usage == old(self)@.config.usage
                &&& final(self)@.config.format == old(self)@.config.format
                &&& final(self)@.config.present_mode == old(self)@.config.present_mode
                &&& final(self)@.config.alpha_mode == old(self)@.config.alpha_mode
                &&& final(self)@.config.desired_maximum_frame_latency
                    == old(self)@.config.desired_maximum_frame_latency
                &&& final(self)@.config.view_formats == old(self)@.config.view_formats
            },
            !(new_size.width > 0 && new_size.height > 0) ==> final(self)@ == old(self)@,
    {
        if new_size.width > 0 && new_size.height > 0 {
            self.config.width = new_size.width;
            self.config.height = new_size.height;
            true
        } else {
            false
        }
    }

    /// Whether the state consumes a window event: it consumes none.
    pub fn input(&mut self, event: &crate::event::WindowEvent) -> (consumed: bool)
        ensures
            !consumed,
            final(self)@ == old(self)@,
    {
        false
    }
}

/// The configuration's width and height are the state's size, in every
/// state.
pub proof fn lemma_config_matches_size(s: State)
    ensures
        s@.config.width == s@.size.width,
        s@.config.height == s@.size.height,
{
}

/// A surface starts out drawn into, with the first present mode and alpha
/// mode it offers, a frame latency of two, no view formats, and the size it
/// was made with, whatever its capabilities.
pub proof fn lemma_initial_configuration_fields(size: PhysicalSize, caps: SurfaceCapabilities)
    ensures
        initial_configuration(size, caps).usage == RENDER_ATTACHMENT,
        initial_configuration(size, caps).present_mode == 0,
        initial_configuration(size, caps).alpha_mode == 0,
        initial_configuration(size, caps).desired_maximum_frame_latency == 2,
        initial_configuration(size, caps).view_formats.len() == 0,
        initial_configuration(size, caps).width == size.width,
        initial_configuration(size, caps).height == size.height,
{
}

/// A size is drawable exactly when neither side is zero; a resize to a
/// drawable size is always taken over, size and configuration, and any other
/// resize changes nothing.
pub proof fn lemma_resize_takes_every_drawable_size(s: StateView, new_size: PhysicalSize)
    ensures
        is_drawable(new_size) == (new_size.width > 0 && new_size.height > 0),
        new_size.width > 0 && new_size.height > 0 ==> state_after_resize(s, new_size).size == new_size
            && state_after_resize(s, new_size).config.width == new_size.width
            && state_after_resize(s, new_size).config.height == new_size.height,
        !(new_size.width > 0 && new_size.height > 0) ==> state_after_resize(s, new_size) == s,
{
}

/// Resizing to the size the state already has changes nothing.
pub proof fn lemma_resize_to_same_size(s: StateView)
    requires
        s.config.width == s.size.width,
        s.config.height == s.size.height,
    ensures
        state_after_resize(s, s.size) == s,
{
    assert(resized_configuration(s.config, s.size) == s.config);
}

/// Only the last drawable size of two resize requests counts: resizing to
/// `a` and then to a drawable `b` is resizing to `b`.
pub proof fn lemma_resize_last_wins(s: StateView, a: PhysicalSize, b: PhysicalSize)
    requires
        is_drawable(b),
    ensures
        state_after_resize(state_after_resize(s, a), b) == state_after_resize(s, b),
{
}

} // verus!
