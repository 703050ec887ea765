//! How many levels the mip chain of a texture gets.

use vstd::prelude::*;
use vstd::arithmetic::power2::{lemma_pow2_unfold, lemma2_to64, pow2};
use crate::format::TexelType;
use crate::sampling::Mipmap;

verus! {

/// How often a length has to be halved, rounding up, until it is one. This is
/// the exponent of the least power of two that is not below `size`.
pub open spec fn halvings(size: nat) -> nat
    decreases size,
{
    if size <= 1 {
        0
    } else {
        1 + halvings((size + 1) / 2)
    }
}

/// `halvings(size)` is the exponent of the least power of two that is not
/// below `size`.
pub proof fn lemma_halvings_is_least_exponent(size: nat)
    requires
        size >= 1,
    ensures
        size <= pow2(halvings(size)),
        size >= 2 ==> halvings(size) >= 1 && pow2((halvings(size) - 1) as nat) < size,
    decreases size,
{
    lemma2_to64();
    if size >= 2 {
        let half = (size + 1) / 2;
        lemma_halvings_is_least_exponent(half);
        lemma_pow2_unfold(halvings(size));
        if half >= 2 {
            lemma_pow2_unfold(halvings(half));
        }
    }
}

/// The largest of the extents of a texture; a missing depth counts as zero.
pub open spec fn largest_extent(width: u32, height: u32, depth: Option<u32>) -> nat {
    let flat: nat = if width >= height {
        width as nat
    } else {
        height as nat
    };
    match depth {
        Some(d) => if flat >= d {
            flat
        } else {
            d as nat
        },
        None => flat,
    }
}

/// Whether the number of levels depends on the extents of the texture: a mip
/// chain is asked for, the texel type allows one and there is more than one
/// texel to reduce.
pub open spec fn mip_chain_wanted(
    data_type: TexelType,
    mipmap: Option<Mipmap>,
    width: u32,
    height: u32,
    depth: Option<u32>,
) -> bool {
    &&& data_type.supports_mip_maps()
    &&& mipmap is Some
    &&& largest_extent(width, height, depth) >= 2
}

/// The inputs for which the number of levels is defined: where a chain is
/// wanted, its settings allow at least one level and the largest extent has
/// a power of two above it that fits 32 bits.
pub open spec fn mip_maps_defined(
    data_type: TexelType,
    mipmap: Option<Mipmap>,
    width: u32,
    height: u32,
    depth: Option<u32>,
) -> bool {
    mip_chain_wanted(data_type, mipmap, width, height, depth) ==> {
        &&& mipmap->Some_0.max_levels >= 1
        &&& largest_extent(width, height, depth) <= 0x8000_0000
    }
}

/// The number of levels in the mip chain of a texture, the full size level
/// included. Without a wanted chain it is one; otherwise it is the number of
/// halvings that take the largest extent down to one, capped by the
/// `max_levels` of the settings.
pub open spec fn number_of_mip_maps(
    data_type: TexelType,
    mipmap: Option<Mipmap>,
    width: u32,
    height: u32,
    depth: Option<u32>,
) -> nat {
    if mip_chain_wanted(data_type, mipmap, width, height, depth) {
        let levels = halvings(largest_extent(width, height, depth));
        let cap = mipmap->Some_0.max_levels as nat;
        if levels > cap {
            cap
        } else {
            levels
        }
    } else {
        1
    }
}

/// Computes the largest of the extents of a texture.
fn max_extent(width: u32, height: u32, depth: Option<u32>) -> (extent: u32)
    ensures
        extent == largest_extent(width, height, depth),
{
    let flat: u32 = if width >= height {
        width
    } else {
        height
    };
    match depth {
        Some(d) => if flat >= d {
            flat
        } else {
            d
        },
        None => flat,
    }
}

/// Computes `halvings(size)`.
fn count_halvings(size: u32) -> (count: u32)
    ensures
        count == halvings(size as nat),
        count <= 32,
{
    let mut rest: u32 = size;
    let mut count: u32 = 0;
    proof {
        lemma2_to64();
    }
    while rest > 1
        invariant
            count + halvings(rest as nat) == halvings(size as nat),
            count <= 32,
            rest as nat <= pow2((32 - count) as nat),
        decreases rest,
    {
        proof {
            lemma2_to64();
            if count < 32 {
                lemma_pow2_unfold((32 - count) as nat);
            }
        }
        rest = rest - rest / 2;
        count = count + 1;
    }
    count
}

/// Tells whether the number of levels is defined for the given inputs.
pub fn mip_maps_are_defined(
    data_type: TexelType,
    mipmap: Option<Mipmap>,
    width: u32,
    height: u32,
    depth: Option<u32>,
) -> (defined: bool)
    ensures
        defined == mip_maps_defined(data_type, mipmap, width, height, depth),
{
    if !data_type.supports_mip_maps() {
        return true;
    }
    match mipmap {
        Some(settings) => {
            let max_size: u32 = max_extent(width, height, depth);
            max_size < 2 || (settings.max_levels >= 1 && max_size <= 0x8000_0000)
        },
        None => true,
    }
}

/// Computes the number of levels in the mip chain of a texture with texels
/// of type `data_type`, the settings `mipmap` and the given extents.
pub fn calculate_number_of_mip_maps(
    data_type: TexelType,
    mipmap: Option<Mipmap>,
    width: u32,
    height: u32,
    depth: Option<u32>,
) -> (levels: u32)
    requires
        mip_maps_defined(data_type, mipmap, width, height, depth),
    ensures
        levels == number_of_mip_maps(data_type, mipmap, width, height, depth),
        levels >= 1,
{
    if !data_type.supports_mip_maps() {
        return 1;
    }
    match mipmap {
        Some(settings) => {
            let max_size: u32 = max_extent(width, height, depth);
            if max_size < 2 {
                1
            } else {
                let levels: u32 = count_halvings(max_size);
                proof {
                    lemma_halvings_is_least_exponent(max_size as nat);
                }
                if levels > settings.max_levels {
                    settings.max_levels
                } else {
                    levels
                }
            }
        },
        None => 1,
    }
}

} // verus!
