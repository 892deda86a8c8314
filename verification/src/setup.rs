//! The demo's one-time setup constants: the window it opens and the layer it
//! presents into.

use crate::render::PixelFormat;
use vstd::prelude::*;

verus! {

/// The window the demo opens.
#[derive(Clone, Copy, Debug, PartialEq, Eq, Structural)]
pub struct WindowConfig {
    pub logical_width: u32,
    pub logical_height: u32,
    pub resizable: bool,
}

/// A fixed 512 by 512 logical size that the user cannot resize.
pub open spec fn demo_window_config() -> WindowConfig {
    WindowConfig { logical_width: 512, logical_height: 512, resizable: false }
}

/// The window settings the demo is built with.
pub fn window_config() -> (c: WindowConfig)
    ensures
        c == demo_window_config(),
{
    WindowConfig { logical_width: 512, logical_height: 512, resizable: false }
}

/// The layer the frames are presented into.
#[derive(Clone, Copy, Debug, PartialEq, Eq, Structural)]
pub struct LayerConfig {
    pub pixel_format: PixelFormat,
    pub presents_with_transaction: bool,
    pub framebuffer_only: bool,
}

/// BGRA8Unorm pixels, presented outside the windowing system's transactions,
/// and not framebuffer-only, so that the drawable's texture stays writable.
pub open spec fn demo_layer_config() -> LayerConfig {
    LayerConfig {
        pixel_format: PixelFormat::Bgra8Unorm,
        presents_with_transaction: false,
        framebuffer_only: false,
    }
}

/// The layer settings the demo is built with.
pub fn layer_config() -> (c: LayerConfig)
    ensures
        c == demo_layer_config(),
{
    LayerConfig {
        pixel_format: PixelFormat::Bgra8Unorm,
        presents_with_transaction: false,
        framebuffer_only: false,
    }
}

} // verus!
