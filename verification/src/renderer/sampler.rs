//! How an atlas page asks to be sampled, and what the GPU is told.

use vstd::prelude::*;

verus! {

/// Texture filter named by an atlas page.
#[derive(Clone, Copy, Debug, PartialEq, Eq, Structural)]
pub enum AtlasFilter {
    UnknownFilter,
    Nearest,
    Linear,
    Mipmap,
    MipmapNearestNearest,
    MipmapLinearNearest,
    MipmapNearestLinear,
    MipmapLinearLinear,
}

/// Texture wrapping named by an atlas page.
#[derive(Clone, Copy, Debug, PartialEq, Eq, Structural)]
pub enum AtlasWrap {
    MirroredRepeat,
    ClampToEdge,
    Repeat,
    Unknown,
}

/// Texel filtering of a sampler.
#[derive(Clone, Copy, Debug, PartialEq, Eq, Structural)]
pub enum FilterMode {
    Nearest,
    Linear,
}

/// Addressing of a sampler outside the unit square.
#[derive(Clone, Copy, Debug, PartialEq, Eq, Structural)]
pub enum AddressMode {
    ClampToEdge,
    Repeat,
    MirrorRepeat,
}

/// The sampler of one atlas page.
#[derive(Clone, Copy, Debug, PartialEq, Eq, Structural)]
pub struct SamplerDesc {
    pub address_mode_u: AddressMode,
    pub address_mode_v: AddressMode,
    pub mag_filter: FilterMode,
    pub min_filter: FilterMode,
}

/// The sampler filter for an atlas filter: nearest stays nearest, and every
/// other filter, the mipmapped and the unknown included, samples linearly.
pub open spec fn filter_for(filter: AtlasFilter) -> FilterMode {
    match filter {
        AtlasFilter::Nearest => FilterMode::Nearest,
        _ => FilterMode::Linear,
    }
}

/// The sampler addressing for an atlas wrap: the two repeating wraps keep
/// their meaning, and every other wrap clamps to the edge.
pub open spec fn address_for(wrap: AtlasWrap) -> AddressMode {
    match wrap {
        AtlasWrap::MirroredRepeat => AddressMode::MirrorRepeat,
        AtlasWrap::Repeat => AddressMode::Repeat,
        _ => AddressMode::ClampToEdge,
    }
}

/// The sampler filter for an atlas filter.
pub fn convert_filter(filter: AtlasFilter) -> (mode: FilterMode)
    ensures
        mode == filter_for(filter),
{
    match filter {
        AtlasFilter::Nearest => FilterMode::Nearest,
        AtlasFilter::Linear => FilterMode::Linear,
        _ => FilterMode::Linear,
    }
}

/// The sampler addressing for an atlas wrap.
pub fn convert_wrap(wrap: AtlasWrap) -> (mode: AddressMode)
    ensures
        mode == address_for(wrap),
{
    match wrap {
        AtlasWrap::MirroredRepeat => AddressMode::MirrorRepeat,
        AtlasWrap::ClampToEdge => AddressMode::ClampToEdge,
        AtlasWrap::Repeat => AddressMode::Repeat,
        _ => AddressMode::ClampToEdge,
    }
}

impl SamplerDesc {
    /// The sampler of a page with the given wraps and filters.
    pub fn for_page(
        u_wrap: AtlasWrap,
        v_wrap: AtlasWrap,
        mag_filter: AtlasFilter,
        min_filter: AtlasFilter,
    ) -> (sampler: SamplerDesc)
        ensures
            sampler == (SamplerDesc {
                address_mode_u: address_for(u_wrap),
                address_mode_v: address_for(v_wrap),
                mag_filter: filter_for(mag_filter),
                min_filter: filter_for(min_filter),
            }),
    {
        SamplerDesc {
            address_mode_u: convert_wrap(u_wrap),
            address_mode_v: convert_wrap(v_wrap),
            mag_filter: convert_filter(mag_filter),
            min_filter: convert_filter(min_filter),
        }
    }
}

} // verus!
