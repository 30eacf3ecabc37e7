//! The GPU context model: the swapchain descriptor, the configured
//! swapchain, and the last-known window size.
//!
//! The live surface, adapter, device and queue are driver handles owned
//! by the surrounding application; this module carries the state the
//! core's logic decides on. Its invariant is the one the design owes:
//! the descriptor's dimensions, the swapchain's dimensions and the
//! stored size always agree with the most recent construction or
//! resize.

use vstd::prelude::*;

verus! {

/// How the swapchain's images may be used.
#[derive(Clone, Copy, Debug, PartialEq, Eq, Structural)]
pub enum TextureUsage {
    /// Render-target output attachment.
    OutputAttachment,
}

/// Pixel format of the swapchain's images.
#[derive(Clone, Copy, Debug, PartialEq, Eq, Structural)]
pub enum TextureFormat {
    /// 8-bit-per-channel BGRA, sRGB-encoded.
    Bgra8UnormSrgb,
}

/// Presentation pacing of the swapchain.
#[derive(Clone, Copy, Debug, PartialEq, Eq, Structural)]
pub enum PresentMode {
    /// First-in-first-out, vsync-paced.
    Fifo,
    /// Present without waiting for vsync.
    Immediate,
}

/// The descriptor a swapchain is created from.
#[derive(Clone, Copy, Debug, PartialEq, Eq, Structural)]
pub struct SwapChainDescriptor {
    /// Usage of the output images.
    pub usage: TextureUsage,
    /// Pixel format of the output images.
    pub format: TextureFormat,
    /// Width in pixels.
    pub width: u32,
    /// Height in pixels.
    pub height: u32,
    /// Presentation pacing.
    pub present_mode: PresentMode,
}

/// The configuration a live swapchain was built with.
#[derive(Clone, Copy, Debug, PartialEq, Eq, Structural)]
pub struct SwapChain {
    /// Width the swapchain was created at.
    pub width: u32,
    /// Height the swapchain was created at.
    pub height: u32,
    /// Format the swapchain was created at.
    pub format: TextureFormat,
}

/// Builds a swapchain configured exactly as the descriptor says.
pub fn create_swap_chain(desc: &SwapChainDescriptor) -> (r: SwapChain)
    ensures
        r.width == desc.width,
        r.height == desc.height,
        r.format == desc.format,
{
    SwapChain { width: desc.width, height: desc.height, format: desc.format }
}

/// The GPU context state: descriptor, swapchain and last-known size.
#[derive(Clone, Copy, Debug, PartialEq, Eq, Structural)]
pub struct Context {
    /// The swapchain descriptor in force.
    pub sc_desc: SwapChainDescriptor,
    /// The swapchain built from that descriptor.
    pub swap_chain: SwapChain,
    /// Last-known window width in pixels.
    pub width: u32,
    /// Last-known window height in pixels.
    pub height: u32,
}

impl Context {
    /// The context invariant: descriptor, live swapchain and stored
    /// size all carry the dimensions of the most recent resize, and
    /// the swapchain's format is the descriptor's.
    pub open spec fn well_formed(self) -> bool {
        &&& self.sc_desc.width == self.width
        &&& self.sc_desc.height == self.height
        &&& self.swap_chain.width == self.sc_desc.width
        &&& self.swap_chain.height == self.sc_desc.height
        &&& self.swap_chain.format == self.sc_desc.format
    }

    /// Builds the context state for a window of the given size: an
    /// output-attachment, BGRA8-sRGB, vsync-paced descriptor at that
    /// size, and a swapchain matching it.
    pub fn new(width: u32, height: u32) -> (r: Context)
        ensures
            r.well_formed(),
            r.width == width,
            r.height == height,
            r.sc_desc.usage == TextureUsage::OutputAttachment,
            r.sc_desc.format == TextureFormat::Bgra8UnormSrgb,
            r.sc_desc.present_mode == PresentMode::Fifo,
    {
        let sc_desc = SwapChainDescriptor {
            usage: TextureUsage::OutputAttachment,
            format: TextureFormat::Bgra8UnormSrgb,
            width,
            height,
            present_mode: PresentMode::Fifo,
        };
        let swap_chain = create_swap_chain(&sc_desc);
        Context { sc_desc, swap_chain, width, height }
    }

    /// Records a new window size: stores it, updates the descriptor's
    /// dimensions, and rebuilds only the swapchain. Usage, format and
    /// present mode are untouched.
    pub fn resize(&mut self, width: u32, height: u32)
        ensures
            final(self).well_formed(),
            final(self).width == width,
            final(self).height == height,
            final(self).sc_desc.width == width,
            final(self).sc_desc.height == height,
            final(self).sc_desc.usage == old(self).sc_desc.usage,
            final(self).sc_desc.format == old(self).sc_desc.format,
            final(self).sc_desc.present_mode == old(self).sc_desc.present_mode,
    {
        self.width = width;
        self.height = height;
        self.sc_desc.width = width;
        self.sc_desc.height = height;
        self.swap_chain = create_swap_chain(&self.sc_desc);
    }
}

} // verus!
