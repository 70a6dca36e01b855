//! The window and rendering-context configuration the program asks for.

use vstd::prelude::*;

verus! {

/// Width in pixels of the window the program opens.
pub const SCREEN_WIDTH: u32 = 800;

/// Height in pixels of the window the program opens.
pub const SCREEN_HEIGHT: u32 = 600;

/// The kind of rendering-context profile a window can request.
#[derive(Clone, Copy, Debug, PartialEq, Eq, Structural)]
pub enum GlProfile {
    /// Core profile: the legacy API surface is excluded.
    Core,
    /// Compatibility profile: the legacy API surface is kept.
    Compatibility,
    /// The profile of the embedded-systems API variant.
    Es,
}

/// A rendering-context profile and version, either as requested before
/// context creation or as negotiated afterwards.
#[derive(Clone, Copy, Debug, PartialEq, Eq, Structural)]
pub struct ContextRequest {
    /// The requested or negotiated profile.
    pub profile: GlProfile,
    /// Major version of the rendering API.
    pub major: u32,
    /// Minor version of the rendering API.
    pub minor: u32,
}

/// The one context this program ever requests: core profile, version 3.3.
pub open spec fn spec_requested_context() -> ContextRequest {
    ContextRequest { profile: GlProfile::Core, major: 3, minor: 3 }
}

/// Builds the context request the shell hands to the windowing library
/// before creating the rendering context.
pub fn requested_context() -> (request: ContextRequest)
    ensures
        request == spec_requested_context(),
        request.profile is Core,
        request.major == 3 && request.minor == 3,
{
    ContextRequest { profile: GlProfile::Core, major: 3, minor: 3 }
}

/// True exactly when the negotiated context equals the requested one.
/// After context creation the shell asserts this in debug builds.
pub fn context_matches(negotiated: &ContextRequest, requested: &ContextRequest) -> (ok: bool)
    ensures
        ok == (*negotiated == *requested),
{
    *negotiated == *requested
}

/// How the window is opened: its pixel size and the flags the original
/// program sets on the window builder.
#[derive(Clone, Copy, Debug, PartialEq, Eq, Structural)]
pub struct WindowConfig {
    /// Window width in pixels.
    pub width: u32,
    /// Window height in pixels.
    pub height: u32,
    /// The window is configured for GPU rendering.
    pub opengl: bool,
    /// The window is centered on screen.
    pub centered: bool,
    /// The window may be resized by the user.
    pub resizable: bool,
}

/// The one window configuration this program ever uses.
pub open spec fn spec_window_config() -> WindowConfig {
    WindowConfig { width: 800, height: 600, opengl: true, centered: true, resizable: true }
}

/// Builds the window configuration the shell applies when opening the
/// window: a resizable, centered, GPU-capable window of the fixed size.
pub fn window_config() -> (config: WindowConfig)
    ensures
        config == spec_window_config(),
        config.width == SCREEN_WIDTH && config.height == SCREEN_HEIGHT,
        config.opengl && config.centered && config.resizable,
{
    WindowConfig {
        width: SCREEN_WIDTH,
        height: SCREEN_HEIGHT,
        opengl: true,
        centered: true,
        resizable: true,
    }
}

/// The title the window is opened with.
pub fn window_title() -> (title: &'static str)
    ensures
        title@ == "OpenGL Playground"@,
{
    "OpenGL Playground"
}

} // verus!
