use texture_array::format::format_from_data_type;
use texture_array::{ChannelType, PixelFormat, TexelType};

const CHANNEL_TYPES: [ChannelType; 3] = [ChannelType::U8, ChannelType::F16, ChannelType::F32];

const FORMATS: [PixelFormat; 4] =
    [PixelFormat::Red, PixelFormat::Rg, PixelFormat::Rgb, PixelFormat::Rgba];

#[test]
fn channel_byte_sizes() {
    assert_eq!(ChannelType::U8.byte_size(), 1);
    assert_eq!(ChannelType::F16.byte_size(), 2);
    assert_eq!(ChannelType::F32.byte_size(), 4);
}

#[test]
fn only_bytes_are_not_floats() {
    assert!(!ChannelType::U8.is_float());
    assert!(ChannelType::F16.is_float());
    assert!(ChannelType::F32.is_float());
}

#[test]
fn channel_counts() {
    assert_eq!(PixelFormat::Red.channels(), 1);
    assert_eq!(PixelFormat::Rg.channels(), 2);
    assert_eq!(PixelFormat::Rgb.channels(), 3);
    assert_eq!(PixelFormat::Rgba.channels(), 4);
}

#[test]
fn texel_byte_sizes() {
    let expected: [[usize; 4]; 3] = [[1, 2, 3, 4], [2, 4, 6, 8], [4, 8, 12, 16]];
    for (i, channel) in CHANNEL_TYPES.iter().enumerate() {
        for (j, format) in FORMATS.iter().enumerate() {
            let texel = TexelType { channel: *channel, format: *format };
            assert_eq!(texel.byte_size(), expected[i][j]);
            assert_eq!(texel.size(), j as u32 + 1);
        }
    }
}

#[test]
fn format_follows_the_channel_count() {
    for channel in CHANNEL_TYPES {
        for format in FORMATS {
            let texel = TexelType { channel, format };
            assert_eq!(format_from_data_type(texel), format);
        }
    }
}

#[test]
fn three_float_channels_have_no_mip_maps() {
    for channel in CHANNEL_TYPES {
        for format in FORMATS {
            let texel = TexelType { channel, format };
            let expected = !(format == PixelFormat::Rgb && channel != ChannelType::U8);
            assert_eq!(texel.supports_mip_maps(), expected);
        }
    }
}
