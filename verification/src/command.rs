//! The operations that a texture array asks of the graphics context.

use vstd::prelude::*;
use crate::format::{ChannelType, PixelFormat, TexelType};
use crate::sampling::{Interpolation, Mipmap, Wrapping};

verus! {

/// One operation on the graphics context. Each of them concerns the texture
/// array that issued it and the binding point for arrays of 2D textures.
#[derive(Clone, Copy, Debug, PartialEq, Eq, Structural)]
pub enum Command {
    /// Bind the texture array to its binding point.
    Bind,
    /// Set how the bound texture array is sampled. Without `mipmap` the
    /// minification filter reads the full size level only.
    SetParameters {
        min_filter: Interpolation,
        mag_filter: Interpolation,
        mipmap: Option<Mipmap>,
        wrap_s: Wrapping,
        wrap_t: Wrapping,
    },
    /// Reserve the storage of the bound texture array: `depth` layers of
    /// `width` by `height` texels, with `levels` levels each.
    AllocateStorage { levels: u32, data_type: TexelType, width: u32, height: u32, depth: u32 },
    /// Replace the full size level of layer `layer` of the bound texture
    /// array by the pixels that were prepared for that layer: `width` by
    /// `height` texels of the given format and channel type.
    UploadLayer {
        layer: u32,
        width: u32,
        height: u32,
        format: PixelFormat,
        channel_type: ChannelType,
    },
    /// Derive the smaller levels of the bound texture array from its full
    /// size level.
    GenerateMipMaps,
    /// Attach level `mip_level` of layer `layer` to color output `channel` of
    /// the framebuffer that is drawn to.
    AttachLayer { layer: u32, channel: u32, mip_level: u32 },
}

} // verus!
