//! Texel buffers: row order and size checks.

use vstd::prelude::*;
use crate::format::TexelType;

verus! {

/// Position of the texel in row `row` and column `col` of an image that is
/// stored row by row, `width` texels to a row.
pub open spec fn texel_index(row: int, col: int, width: int) -> int {
    row * width + col
}

/// The image `pixels`, `width` by `height` texels stored row by row, with the
/// order of its rows reversed. Texels behind the image stay where they are.
pub open spec fn flipped<T>(pixels: Seq<T>, width: nat, height: nat) -> Seq<T> {
    Seq::new(
        pixels.len(),
        |i: int|
            if height >= 2 && i < width * height {
                pixels[texel_index(height - 1 - i / (width as int), i % (width as int), width as int)]
            } else {
                pixels[i]
            },
    )
}

/// Whether `flip_y` can work on a buffer of `len` texels: an image with at
/// least two rows has to lie within the buffer.
pub open spec fn flippable(len: nat, width: nat, height: nat) -> bool {
    height >= 2 && width >= 1 ==> width * height <= len
}

/// A texel position inside the image is below the image's size.
pub proof fn lemma_texel_index_bound(row: int, col: int, width: int, height: int)
    requires
        0 <= row < height,
        0 <= col < width,
    ensures
        0 <= texel_index(row, col, width) < width * height,
{
    assert(0 <= row * width + col < width * height) by (nonlinear_arith)
        requires
            0 <= row < height,
            0 <= col < width,
    ;
}

/// Two texels of one image share a position only if they share row and
/// column.
pub proof fn lemma_texel_index_injective(row: int, col: int, other_row: int, other_col: int, width: int)
    requires
        0 <= col < width,
        0 <= other_col < width,
        texel_index(row, col, width) == texel_index(other_row, other_col, width),
    ensures
        row == other_row,
        col == other_col,
{
    assert(row == other_row) by (nonlinear_arith)
        requires
            0 <= col < width,
            0 <= other_col < width,
            row * width + col == other_row * width + other_col,
    ;
}

/// A position below the image's size splits into a row and a column.
pub proof fn lemma_texel_index_split(i: int, width: int, height: int)
    requires
        0 <= i < width * height,
        0 < width,
        0 <= height,
    ensures
        0 <= i / width < height,
        0 <= i % width < width,
        texel_index(i / width, i % width, width) == i,
{
    vstd::arithmetic::div_mod::lemma_fundamental_div_mod(i, width);
    vstd::arithmetic::div_mod::lemma_mod_bound(i, width);
    let q = i / width;
    let r = i % width;
    assert(i == width * q + r);
    assert(width * q == q * width) by (nonlinear_arith);
    assert(0 <= q < height) by (nonlinear_arith)
        requires
            0 <= q * width + r < width * height,
            0 <= r < width,
            0 <= height,
    ;
}

/// Flipping an image twice gives the image back.
pub proof fn lemma_flipped_twice<T>(pixels: Seq<T>, width: nat, height: nat)
    requires
        flippable(pixels.len(), width, height),
    ensures
        flipped(flipped(pixels, width, height), width, height) == pixels,
{
    let once = flipped(pixels, width, height);
    let twice = flipped(once, width, height);
    assert forall|i: int| 0 <= i < pixels.len() implies twice[i] == pixels[i] by {
        if height >= 2 && i < width * height {
            let w = width as int;
            let h = height as int;
            assert(w > 0) by (nonlinear_arith)
                requires
                    0 <= i < w * h,
                    0 <= w,
                    0 <= h,
            ;
            lemma_texel_index_split(i, w, h);
            let row = i / w;
            let col = i % w;
            let j = texel_index(h - 1 - row, col, w);
            lemma_texel_index_bound(h - 1 - row, col, w, h);
            lemma_texel_index_split(j, w, h);
            lemma_texel_index_injective(j / w, j % w, h - 1 - row, col, w);
            assert(twice[i] == once[j]);
            assert(once[j] == pixels[texel_index(h - 1 - (h - 1 - row), col, w)]);
        }
    }
    assert(twice =~= pixels);
}

/// Reverses the order of the rows of an image of `width` by `height` texels,
/// stored row by row at the front of `pixels`.
pub fn flip_y<T: Copy>(pixels: &mut [T], width: usize, height: usize)
    requires
        flippable(old(pixels)@.len(), width as nat, height as nat),
    ensures
        final(pixels)@ == flipped(old(pixels)@, width as nat, height as nat),
{
    let ghost before = pixels@;
    proof {
        vstd::slice::axiom_spec_len::<T>(pixels);
    }
    let mut row: usize = 0;
    while row < height / 2
        invariant
            0 <= row <= height / 2,
            pixels@.len() == before.len() <= usize::MAX,
            height >= 2 && width >= 1 ==> width * height <= before.len(),
            forall|i: int| width * height <= i < before.len() ==> pixels@[i] == before[i],
            forall|r: int, c: int|
                0 <= r < height && 0 <= c < width ==> #[trigger] pixels@[texel_index(
                    r,
                    c,
                    width as int,
                )] == (if r < row || r >= height - row {
                    before[texel_index(height - 1 - r, c, width as int)]
                } else {
                    before[texel_index(r, c, width as int)]
                }),
        decreases height / 2 - row,
    {
        let mut col: usize = 0;
        while col < width
            invariant
                0 <= row < height / 2,
                0 <= col <= width,
                pixels@.len() == before.len() <= usize::MAX,
                height >= 2 && width >= 1 ==> width * height <= before.len(),
                forall|i: int| width * height <= i < before.len() ==> pixels@[i] == before[i],
                forall|r: int, c: int|
                    0 <= r < height && 0 <= c < width ==> #[trigger] pixels@[texel_index(
                        r,
                        c,
                        width as int,
                    )] == (if r < row || r >= height - row || ((r == row || r == height - 1 - row)
                        && c < col) {
                        before[texel_index(height - 1 - r, c, width as int)]
                    } else {
                        before[texel_index(r, c, width as int)]
                    }),
            decreases width - col,
        {
            let ghost top = texel_index(row as int, col as int, width as int);
            let ghost bottom = texel_index(height - 1 - row, col as int, width as int);
            proof {
                lemma_texel_index_bound(row as int, col as int, width as int, height as int);
                lemma_texel_index_bound(height - 1 - row, col as int, width as int, height as int);
                assert(width * row == row * width) by (nonlinear_arith);
                assert(width * (height - row - 1) == (height - 1 - row) * width)
                    by (nonlinear_arith);
                assert(0 <= row * width && 0 <= (height - 1 - row) * width) by (nonlinear_arith)
                    requires
                        0 <= row < height,
                ;
            }
            let index0: usize = width * row + col;
            let index1: usize = width * (height - row - 1) + col;
            let ghost prior = pixels@;
            let first: T = pixels[index0];
            let second: T = pixels[index1];
            pixels[index0] = second;
            pixels[index1] = first;
            proof {
                assert(index0 == top && index1 == bottom);
                assert(pixels@ == prior.update(top, second).update(bottom, first));
                assert(prior[top] == before[top]);
                assert(prior[bottom] == before[bottom]);
                assert forall|r: int, c: int|
                    0 <= r < height && 0 <= c < width implies #[trigger] pixels@[texel_index(
                    r,
                    c,
                    width as int,
                )] == (if r < row || r >= height - row || ((r == row || r == height - 1 - row) && c
                    < col + 1) {
                    before[texel_index(height - 1 - r, c, width as int)]
                } else {
                    before[texel_index(r, c, width as int)]
                }) by {
                    let i = texel_index(r, c, width as int);
                    lemma_texel_index_bound(r, c, width as int, height as int);
                    if i == top {
                        lemma_texel_index_injective(r, c, row as int, col as int, width as int);
                    }
                    if i == bottom {
                        lemma_texel_index_injective(
                            r,
                            c,
                            height - 1 - row,
                            col as int,
                            width as int,
                        );
                    }
                    if i != top && i != bottom {
                        assert(pixels@[i] == prior[i]);
                    }
                }
            }
            col += 1;
        }
        row += 1;
    }
    proof {
        let after = pixels@;
        let want = flipped(before, width as nat, height as nat);
        assert forall|i: int| 0 <= i < before.len() implies after[i] == want[i] by {
            if i < width * height {
                assert(width > 0) by (nonlinear_arith)
                    requires
                        0 <= i < width * height,
                ;
                lemma_texel_index_split(i, width as int, height as int);
                let r = i / (width as int);
                let c = i % (width as int);
                assert(after[texel_index(r, c, width as int)] == after[i]);
                if height >= 2 && !(r < row || r >= height - row) {
                    // An image with an odd number of rows keeps its middle row.
                    assert(height - 1 - r == r);
                }
            }
        }
        assert(after =~= want);
    }
}

/// Whether `data_len` texels of type `data_type` take as many bytes as
/// `width` by `height` by `depth` texels of `data_byte_size` bytes each.
pub open spec fn data_length_matches(
    data_type: TexelType,
    width: nat,
    height: nat,
    depth: nat,
    data_byte_size: nat,
    data_len: nat,
) -> bool {
    width * height * depth * data_byte_size == data_len * data_type.spec_byte_size()
}

/// Tells whether a buffer of `data_len` texels of type `data_type` has the
/// size in bytes of a block of `width` by `height` by `depth` texels of
/// `data_byte_size` bytes each.
pub fn check_data_length(
    data_type: TexelType,
    width: u32,
    height: u32,
    depth: u32,
    data_byte_size: usize,
    data_len: usize,
) -> (matches: bool)
    ensures
        matches == data_length_matches(
            data_type,
            width as nat,
            height as nat,
            depth as nat,
            data_byte_size as nat,
            data_len as nat,
        ),
{
    let texel_bytes: usize = data_type.byte_size();
    assert(width * height <= 0xffff_ffff * 0xffff_ffff) by (nonlinear_arith)
        requires
            width <= 0xffff_ffff,
            height <= 0xffff_ffff,
    ;
    let area: u128 = (width as u128) * (height as u128);
    assert(area * depth <= 0xffff_ffff * 0xffff_ffff * 0xffff_ffff) by (nonlinear_arith)
        requires
            area <= 0xffff_ffff * 0xffff_ffff,
            depth <= 0xffff_ffff,
    ;
    let texels: u128 = area * (depth as u128);
    assert(data_len * texel_bytes <= 0xffff_ffff_ffff_ffff * 16) by (nonlinear_arith)
        requires
            data_len <= 0xffff_ffff_ffff_ffff,
            texel_bytes <= 16,
    ;
    let actual_bytes: u128 = (data_len as u128) * (texel_bytes as u128);
    match texels.checked_mul(data_byte_size as u128) {
        Some(expected_bytes) => expected_bytes == actual_bytes,
        None => false,
    }
}

} // verus!
