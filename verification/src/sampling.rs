//! How a texture is sampled: filtering, wrapping and mip mapping.

use vstd::prelude::*;

verus! {

/// How a texel is picked when a texture is sampled between texel centers.
#[derive(Clone, Copy, Debug, PartialEq, Eq, Structural)]
pub enum Interpolation {
    /// The nearest texel.
    Nearest,
    /// A weighted mix of the neighbouring texels.
    Linear,
}

/// What a texture yields outside of the unit square.
#[derive(Clone, Copy, Debug, PartialEq, Eq, Structural)]
pub enum Wrapping {
    /// The texture repeats.
    Repeat,
    /// The texture repeats, mirrored every other time.
    MirroredRepeat,
    /// The border texels are stretched outwards.
    ClampToEdge,
}

/// Settings of the mip chain of a texture.
#[derive(Clone, Copy, Debug, PartialEq, Eq, Structural)]
pub struct Mipmap {
    /// How to blend between two levels of the chain.
    pub filter: Interpolation,
    /// Upper bound on the ratio of anisotropic filtering.
    pub max_ratio: u32,
    /// Upper bound on the number of levels in the chain.
    pub max_levels: u32,
}

/// How a texture is sampled where it is shown smaller than it is: the filter
/// within a level of the mip chain and, where the chain is used, the filter
/// between the two nearest levels.
#[derive(Clone, Copy, Debug, PartialEq, Eq, Structural)]
pub enum Minification {
    /// The nearest texel of the full size level.
    Nearest,
    /// A mix of texels of the full size level.
    Linear,
    /// The nearest texel of the nearest level.
    NearestMipmapNearest,
    /// The nearest texels of the two nearest levels, mixed.
    NearestMipmapLinear,
    /// A mix of texels of the nearest level.
    LinearMipmapNearest,
    /// A mix of texels of each of the two nearest levels, mixed.
    LinearMipmapLinear,
}

/// The minification for the filter `min_filter` within a level and the mip
/// chain settings `mipmap`.
pub open spec fn spec_minification(min_filter: Interpolation, mipmap: Option<Mipmap>) -> Minification {
    match mipmap {
        None => match min_filter {
            Interpolation::Nearest => Minification::Nearest,
            Interpolation::Linear => Minification::Linear,
        },
        Some(settings) => match (min_filter, settings.filter) {
            (Interpolation::Nearest, Interpolation::Nearest) => Minification::NearestMipmapNearest,
            (Interpolation::Nearest, Interpolation::Linear) => Minification::NearestMipmapLinear,
            (Interpolation::Linear, Interpolation::Nearest) => Minification::LinearMipmapNearest,
            (Interpolation::Linear, Interpolation::Linear) => Minification::LinearMipmapLinear,
        },
    }
}

/// Picks the minification for the filter `min_filter` within a level and the
/// mip chain settings `mipmap`.
#[verifier::when_used_as_spec(spec_minification)]
pub fn minification(min_filter: Interpolation, mipmap: Option<Mipmap>) -> (picked: Minification)
    ensures
        picked == spec_minification(min_filter, mipmap),
{
    match mipmap {
        None => match min_filter {
            Interpolation::Nearest => Minification::Nearest,
            Interpolation::Linear => Minification::Linear,
        },
        Some(settings) => match min_filter {
            Interpolation::Nearest => match settings.filter {
                Interpolation::Nearest => Minification::NearestMipmapNearest,
                Interpolation::Linear => Minification::NearestMipmapLinear,
            },
            Interpolation::Linear => match settings.filter {
                Interpolation::Nearest => Minification::LinearMipmapNearest,
                Interpolation::Linear => Minification::LinearMipmapLinear,
            },
        },
    }
}

} // verus!
