use texture_array::mipmap::{calculate_number_of_mip_maps, mip_maps_are_defined};
use texture_array::{ChannelType, Interpolation, Mipmap, PixelFormat, TexelType};

const RGBA8: TexelType = TexelType { channel: ChannelType::U8, format: PixelFormat::Rgba };

const RGB8: TexelType = TexelType { channel: ChannelType::U8, format: PixelFormat::Rgb };

const RGB16F: TexelType = TexelType { channel: ChannelType::F16, format: PixelFormat::Rgb };

const RGB32F: TexelType = TexelType { channel: ChannelType::F32, format: PixelFormat::Rgb };

const RGBA32F: TexelType = TexelType { channel: ChannelType::F32, format: PixelFormat::Rgba };

fn mipmap(max_levels: u32) -> Option<Mipmap> {
    Some(Mipmap { filter: Interpolation::Linear, max_ratio: 1, max_levels })
}

#[test]
fn no_settings_give_one_level() {
    assert_eq!(calculate_number_of_mip_maps(RGBA8, None, 1024, 1024, None), 1);
    assert_eq!(calculate_number_of_mip_maps(RGBA8, None, 1024, 1024, Some(64)), 1);
    assert_eq!(calculate_number_of_mip_maps(RGBA8, None, u32::MAX, u32::MAX, None), 1);
}

#[test]
fn three_float_channels_give_one_level() {
    assert_eq!(calculate_number_of_mip_maps(RGB16F, mipmap(u32::MAX), 1024, 1024, None), 1);
    assert_eq!(calculate_number_of_mip_maps(RGB32F, mipmap(u32::MAX), 1024, 1024, None), 1);
    assert_eq!(calculate_number_of_mip_maps(RGB32F, mipmap(0), u32::MAX, 1, None), 1);
    assert_eq!(calculate_number_of_mip_maps(RGB8, mipmap(u32::MAX), 1024, 1024, None), 10);
    assert_eq!(calculate_number_of_mip_maps(RGBA32F, mipmap(u32::MAX), 1024, 1024, None), 10);
}

#[test]
fn a_single_texel_gives_one_level() {
    assert_eq!(calculate_number_of_mip_maps(RGBA8, mipmap(u32::MAX), 1, 1, None), 1);
    assert_eq!(calculate_number_of_mip_maps(RGBA8, mipmap(u32::MAX), 0, 0, None), 1);
    assert_eq!(calculate_number_of_mip_maps(RGBA8, mipmap(u32::MAX), 1, 0, Some(1)), 1);
    assert_eq!(calculate_number_of_mip_maps(RGBA8, mipmap(0), 1, 1, None), 1);
}

#[test]
fn levels_are_the_halvings_of_the_largest_extent() {
    let expected: [(u32, u32); 14] = [
        (2, 1),
        (3, 2),
        (4, 2),
        (5, 3),
        (8, 3),
        (9, 4),
        (255, 8),
        (256, 8),
        (257, 9),
        (1000, 10),
        (1024, 10),
        (1025, 11),
        (0x7fff_ffff, 31),
        (0x8000_0000, 31),
    ];
    for (size, levels) in expected {
        assert_eq!(calculate_number_of_mip_maps(RGBA8, mipmap(u32::MAX), size, size, None), levels);
        assert_eq!(calculate_number_of_mip_maps(RGBA8, mipmap(u32::MAX), size, 1, None), levels);
        assert_eq!(calculate_number_of_mip_maps(RGBA8, mipmap(u32::MAX), 1, size, None), levels);
        assert_eq!(calculate_number_of_mip_maps(RGBA8, mipmap(u32::MAX), 1, 2, Some(size)), levels);
    }
}

#[test]
fn levels_are_capped_by_the_settings() {
    assert_eq!(calculate_number_of_mip_maps(RGBA8, mipmap(4), 1024, 512, None), 4);
    assert_eq!(calculate_number_of_mip_maps(RGBA8, mipmap(1), 1024, 512, None), 1);
    assert_eq!(calculate_number_of_mip_maps(RGBA8, mipmap(10), 1024, 512, None), 10);
    assert_eq!(calculate_number_of_mip_maps(RGBA8, mipmap(11), 1024, 512, None), 10);
}

#[test]
fn depth_counts_only_where_given() {
    assert_eq!(calculate_number_of_mip_maps(RGBA8, mipmap(u32::MAX), 4, 4, Some(64)), 6);
    assert_eq!(calculate_number_of_mip_maps(RGBA8, mipmap(u32::MAX), 4, 4, Some(2)), 2);
    assert_eq!(calculate_number_of_mip_maps(RGBA8, mipmap(u32::MAX), 4, 4, None), 2);
}

#[test]
fn levels_are_defined_unless_a_wanted_chain_has_no_room() {
    assert!(mip_maps_are_defined(RGBA8, None, u32::MAX, u32::MAX, None));
    assert!(mip_maps_are_defined(RGB32F, mipmap(0), u32::MAX, u32::MAX, None));
    assert!(mip_maps_are_defined(RGBA8, mipmap(0), 1, 1, None));
    assert!(mip_maps_are_defined(RGBA8, mipmap(1), 2, 1, None));
    assert!(mip_maps_are_defined(RGBA8, mipmap(1), 0x8000_0000, 1, None));
    assert!(!mip_maps_are_defined(RGBA8, mipmap(0), 2, 1, None));
    assert!(!mip_maps_are_defined(RGBA8, mipmap(1), 0x8000_0001, 1, None));
    assert!(!mip_maps_are_defined(RGBA8, mipmap(1), 1, 1, Some(0x8000_0001)));
}
