use vstd::prelude::*;

verus! {

/// The number of pending presentable images the surface is configured for.
pub const MAX_FRAME_LATENCY: u32 = 2;

/// The camera uniform buffer holds one combined projection-times-view
/// matrix: four rows of four 32-bit floats, 64 bytes, rewritten in full
/// every frame.
pub const CAMERA_UNIFORM_BYTES: u64 = 64;

/// The part of the swapchain configuration that the renderer decides on:
/// the pixel size of the presentable surface. The pixel format, present
/// mode and alpha mode are picked once at start-up from what the adapter
/// offers and never change afterwards, so they are not modelled here.
#[derive(Clone, Copy, Debug, PartialEq, Eq, Structural)]
pub struct SurfaceConfig {
    pub width: u32,
    pub height: u32,
}

impl SurfaceConfig {
    pub fn new(width: u32, height: u32) -> (c: SurfaceConfig)
        ensures
            c.width == width,
            c.height == height,
    {
        SurfaceConfig { width, height }
    }

    /// A resize with a zero dimension (a minimised window in flight) leaves
    /// the stored configuration untouched; otherwise both dimensions are
    /// replaced at once. Returns whether the surface must be reconfigured.
    pub fn resize(&mut self, new_width: u32, new_height: u32) -> (changed: bool)
        ensures
            changed == (new_width > 0 && new_height > 0),
            changed ==> final(self).width == new_width && final(self).height == new_height,
            !changed ==> *final(self) == *old(self),
    {
        if new_width > 0 && new_height > 0 {
            self.width = new_width;
            self.height = new_height;
            true
        } else {
            false
        }
    }
}

} // verus!
