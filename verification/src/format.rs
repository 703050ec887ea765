//! The layout of one texel: the numeric type of a channel and how many
//! channels there are.

use vstd::prelude::*;

verus! {

/// The numeric type of a single channel.
#[derive(Clone, Copy, Debug, PartialEq, Eq, Structural)]
pub enum ChannelType {
    /// Unsigned normalized byte.
    U8,
    /// Half precision float.
    F16,
    /// Single precision float.
    F32,
}

impl ChannelType {
    /// Bytes taken by one channel.
    pub open spec fn spec_byte_size(self) -> nat {
        match self {
            ChannelType::U8 => 1,
            ChannelType::F16 => 2,
            ChannelType::F32 => 4,
        }
    }

    /// Bytes taken by one channel.
    pub fn byte_size(self) -> (bytes: usize)
        ensures
            bytes == self.spec_byte_size(),
    {
        match self {
            ChannelType::U8 => 1,
            ChannelType::F16 => 2,
            ChannelType::F32 => 4,
        }
    }

    /// Whether the channel holds a floating point number rather than a
    /// normalized integer.
    pub open spec fn spec_is_float(self) -> bool {
        self != ChannelType::U8
    }

    /// Whether the channel holds a floating point number rather than a
    /// normalized integer.
    #[verifier::when_used_as_spec(spec_is_float)]
    pub fn is_float(self) -> (float: bool)
        ensures
            float == self.spec_is_float(),
    {
        match self {
            ChannelType::U8 => false,
            ChannelType::F16 => true,
            ChannelType::F32 => true,
        }
    }
}

/// The channels that a texel is made of.
#[derive(Clone, Copy, Debug, PartialEq, Eq, Structural)]
pub enum PixelFormat {
    /// One channel.
    Red,
    /// Two channels.
    Rg,
    /// Three channels.
    Rgb,
    /// Four channels.
    Rgba,
}

impl PixelFormat {
    /// Number of channels.
    pub open spec fn spec_channels(self) -> nat {
        match self {
            PixelFormat::Red => 1,
            PixelFormat::Rg => 2,
            PixelFormat::Rgb => 3,
            PixelFormat::Rgba => 4,
        }
    }

    /// Number of channels.
    pub fn channels(self) -> (count: u32)
        ensures
            count == self.spec_channels(),
    {
        match self {
            PixelFormat::Red => 1,
            PixelFormat::Rg => 2,
            PixelFormat::Rgb => 3,
            PixelFormat::Rgba => 4,
        }
    }
}

/// The type of the texels of a texture: one of the twelve combinations of a
/// channel type and a channel count.
#[derive(Clone, Copy, Debug, PartialEq, Eq, Structural)]
pub struct TexelType {
    /// The numeric type of each channel.
    pub channel: ChannelType,
    /// Which channels are present.
    pub format: PixelFormat,
}

impl TexelType {
    /// Number of channels in a texel.
    pub open spec fn spec_size(self) -> nat {
        self.format.spec_channels()
    }

    /// Number of channels in a texel.
    pub fn size(self) -> (count: u32)
        ensures
            count == self.spec_size(),
    {
        self.format.channels()
    }

    /// Bytes taken by one texel.
    pub open spec fn spec_byte_size(self) -> nat {
        self.channel.spec_byte_size() * self.format.spec_channels()
    }

    /// Bytes taken by one texel.
    pub fn byte_size(self) -> (bytes: usize)
        ensures
            bytes == self.spec_byte_size(),
            1 <= bytes <= 16,
    {
        let per_channel: usize = self.channel.byte_size();
        match self.format {
            PixelFormat::Red => per_channel,
            PixelFormat::Rg => per_channel * 2,
            PixelFormat::Rgb => per_channel * 3,
            PixelFormat::Rgba => per_channel * 4,
        }
    }

    /// Whether a mip chain can be generated for textures of this type.
    /// Three-channel float textures are not renderable everywhere, so no
    /// levels beyond the first are ever made for them.
    pub open spec fn spec_supports_mip_maps(self) -> bool {
        !(self.channel.spec_is_float() && self.format == PixelFormat::Rgb)
    }

    /// Whether a mip chain can be generated for textures of this type.
    #[verifier::when_used_as_spec(spec_supports_mip_maps)]
    pub fn supports_mip_maps(self) -> (supported: bool)
        ensures
            supported == self.spec_supports_mip_maps(),
    {
        !(self.channel.is_float() && self.size() == 3)
    }
}

/// The format in which texels of the given type are handed to the graphics
/// context.
pub fn format_from_data_type(data_type: TexelType) -> (format: PixelFormat)
    ensures
        format == data_type.format,
        format.spec_channels() == data_type.spec_size(),
{
    match data_type.size() {
        1 => PixelFormat::Red,
        2 => PixelFormat::Rg,
        3 => PixelFormat::Rgb,
        _ => PixelFormat::Rgba,
    }
}

} // verus!
