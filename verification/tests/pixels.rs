use texture_array::pixels::{check_data_length, flip_y};
use texture_array::{ChannelType, PixelFormat, TexelType};

fn texel(channel: ChannelType, format: PixelFormat) -> TexelType {
    TexelType { channel, format }
}

#[test]
fn flip_y_reverses_the_rows_of_a_square_image() {
    let mut pixels = vec![1u8, 2, 3, 4];
    flip_y(&mut pixels, 2, 2);
    assert_eq!(pixels, vec![3, 4, 1, 2]);
}

#[test]
fn flip_y_keeps_the_middle_row_of_an_odd_image() {
    let mut pixels = vec![[1u8, 1], [2, 2], [3, 3], [4, 4], [5, 5], [6, 6]];
    flip_y(&mut pixels, 2, 3);
    assert_eq!(pixels, vec![[5, 5], [6, 6], [3, 3], [4, 4], [1, 1], [2, 2]]);
}

#[test]
fn flip_y_keeps_the_order_within_a_row() {
    let mut pixels: Vec<u32> = (0..12).collect();
    flip_y(&mut pixels, 3, 4);
    assert_eq!(pixels, vec![9, 10, 11, 6, 7, 8, 3, 4, 5, 0, 1, 2]);
}

#[test]
fn flip_y_leaves_texels_behind_the_image_alone() {
    let mut pixels = vec![1u8, 2, 3, 4, 5, 6, 7];
    flip_y(&mut pixels, 2, 3);
    assert_eq!(pixels, vec![5, 6, 3, 4, 1, 2, 7]);
}

#[test]
fn flip_y_of_a_single_row_changes_nothing() {
    let mut pixels = vec![7u8, 8, 9];
    flip_y(&mut pixels, 3, 1);
    assert_eq!(pixels, vec![7, 8, 9]);
    let mut short = vec![7u8];
    flip_y(&mut short, 3, 1);
    assert_eq!(short, vec![7]);
}

#[test]
fn flip_y_of_an_empty_image_changes_nothing() {
    let mut pixels = vec![7u8, 8, 9];
    flip_y(&mut pixels, 0, 5);
    assert_eq!(pixels, vec![7, 8, 9]);
    flip_y(&mut pixels, 5, 0);
    assert_eq!(pixels, vec![7, 8, 9]);
    let mut none: Vec<u8> = Vec::new();
    flip_y(&mut none, 0, 0);
    assert!(none.is_empty());
}

#[test]
fn flip_y_works_on_float_texels() {
    let mut pixels = vec![0.5f32, 1.5, 2.5, 3.5, 4.5, 5.5];
    flip_y(&mut pixels, 1, 6);
    assert_eq!(pixels, vec![5.5, 4.5, 3.5, 2.5, 1.5, 0.5]);
}

#[test]
fn flip_y_twice_gives_the_image_back() {
    let image: Vec<u16> = (0..35).collect();
    let mut pixels = image.clone();
    flip_y(&mut pixels, 5, 7);
    assert_ne!(pixels, image);
    flip_y(&mut pixels, 5, 7);
    assert_eq!(pixels, image);
}

#[test]
fn check_data_length_accepts_the_exact_size() {
    let rgba = texel(ChannelType::U8, PixelFormat::Rgba);
    assert!(check_data_length(rgba, 3, 5, 1, 4, 15));
    assert!(check_data_length(rgba, 3, 5, 2, 4, 30));
    assert!(check_data_length(rgba, 0, 5, 1, 4, 0));
}

#[test]
fn check_data_length_rejects_other_sizes() {
    let rgba = texel(ChannelType::U8, PixelFormat::Rgba);
    assert!(!check_data_length(rgba, 3, 5, 1, 4, 14));
    assert!(!check_data_length(rgba, 3, 5, 1, 4, 16));
    assert!(!check_data_length(rgba, 3, 5, 1, 4, 0));
    assert!(!check_data_length(rgba, 0, 5, 1, 4, 1));
}

#[test]
fn check_data_length_counts_bytes_not_texels() {
    // Eight texels of two bytes are as large as four texels of four bytes.
    let rg = texel(ChannelType::U8, PixelFormat::Rg);
    let r32 = texel(ChannelType::F32, PixelFormat::Red);
    assert!(check_data_length(r32, 2, 4, 1, 2, 4));
    assert!(check_data_length(rg, 2, 2, 1, 4, 8));
    assert!(!check_data_length(r32, 2, 4, 1, 2, 8));
}

#[test]
fn check_data_length_does_not_wrap_around() {
    let r = texel(ChannelType::U8, PixelFormat::Red);
    assert!(!check_data_length(r, u32::MAX, u32::MAX, u32::MAX, usize::MAX, 0));
    assert!(!check_data_length(r, u32::MAX, u32::MAX, u32::MAX, usize::MAX, usize::MAX));
    assert!(!check_data_length(r, 1 << 16, 1 << 16, 1 << 16, 1 << 16, 0));
}
