//! Sampler settings: how shaders read texels between and beyond texture
//! coordinates. The renderer binds the same texture through four samplers to
//! show the address and filter modes side by side.

use vstd::prelude::*;

verus! {

/// What a sampler does with texture coordinates outside `[0, 1]`.
#[derive(Clone, Copy, Debug, PartialEq, Eq, Structural)]
pub enum AddressMode {
    /// Use the texel at the nearest edge.
    ClampToEdge,
    /// Tile the texture.
    Repeat,
    /// Tile the texture, flipping every other copy.
    MirrorRepeat,
}

/// How a sampler blends neighbouring texels.
#[derive(Clone, Copy, Debug, PartialEq, Eq, Structural)]
pub enum FilterMode {
    /// Take the nearest texel.
    Nearest,
    /// Interpolate between neighbouring texels.
    Linear,
}

/// The settings of a sampler that differ from the GPU defaults (which clamp
/// to the edge and filter with the nearest texel).
#[derive(Clone, Copy, Debug, PartialEq, Eq, Structural)]
pub struct SamplerSettings {
    pub address_mode_u: AddressMode,
    pub address_mode_v: AddressMode,
    pub address_mode_w: AddressMode,
    pub mag_filter: FilterMode,
    pub min_filter: FilterMode,
    pub mipmap_filter: FilterMode,
}

/// The four samplers through which the renderer shows its texture.
#[derive(Clone, Copy, Debug, PartialEq, Eq, Structural)]
pub enum SamplerKind {
    /// Clamp to edge, linear magnification.
    ClampLinear,
    /// Repeat, nearest filtering.
    RepeatNearest,
    /// Mirrored repeat, nearest filtering.
    MirrorNearest,
    /// Repeat, linear magnification and minification.
    RepeatLinear,
}

/// Settings of each of the renderer's samplers.
pub open spec fn spec_sampler_settings(kind: SamplerKind) -> SamplerSettings {
    match kind {
        SamplerKind::ClampLinear => SamplerSettings {
            address_mode_u: AddressMode::ClampToEdge,
            address_mode_v: AddressMode::ClampToEdge,
            address_mode_w: AddressMode::ClampToEdge,
            mag_filter: FilterMode::Linear,
            min_filter: FilterMode::Nearest,
            mipmap_filter: FilterMode::Nearest,
        },
        SamplerKind::RepeatNearest => SamplerSettings {
            address_mode_u: AddressMode::Repeat,
            address_mode_v: AddressMode::Repeat,
            address_mode_w: AddressMode::ClampToEdge,
            mag_filter: FilterMode::Nearest,
            min_filter: FilterMode::Nearest,
            mipmap_filter: FilterMode::Nearest,
        },
        SamplerKind::MirrorNearest => SamplerSettings {
            address_mode_u: AddressMode::MirrorRepeat,
            address_mode_v: AddressMode::MirrorRepeat,
            address_mode_w: AddressMode::ClampToEdge,
            mag_filter: FilterMode::Nearest,
            min_filter: FilterMode::Nearest,
            mipmap_filter: FilterMode::Nearest,
        },
        SamplerKind::RepeatLinear => SamplerSettings {
            address_mode_u: AddressMode::Repeat,
            address_mode_v: AddressMode::Repeat,
            address_mode_w: AddressMode::ClampToEdge,
            mag_filter: FilterMode::Linear,
            min_filter: FilterMode::Linear,
            mipmap_filter: FilterMode::Nearest,
        },
    }
}

/// What each sampler's name says of its settings: the address mode in u
/// and v is the one it is named after (clamp, repeat or mirrored repeat), w
/// is always clamped, magnification is linear exactly for the "linear"
/// samplers, minification is linear only for the repeating linear one, and
/// mipmaps are always picked nearest. These facts fix every field.
pub open spec fn named_settings(kind: SamplerKind, s: SamplerSettings) -> bool {
    &&& kind == SamplerKind::ClampLinear ==> s.address_mode_u == AddressMode::ClampToEdge
        && s.address_mode_v == AddressMode::ClampToEdge
    &&& (kind == SamplerKind::RepeatNearest || kind == SamplerKind::RepeatLinear)
        ==> s.address_mode_u == AddressMode::Repeat && s.address_mode_v == AddressMode::Repeat
    &&& kind == SamplerKind::MirrorNearest ==> s.address_mode_u == AddressMode::MirrorRepeat
        && s.address_mode_v == AddressMode::MirrorRepeat
    &&& s.address_mode_w == AddressMode::ClampToEdge
    &&& (s.mag_filter == FilterMode::Linear <==> (kind == SamplerKind::ClampLinear || kind
        == SamplerKind::RepeatLinear))
    &&& (s.min_filter == FilterMode::Linear <==> kind == SamplerKind::RepeatLinear)
    &&& s.mipmap_filter == FilterMode::Nearest
}

/// Every sampler's settings are what its name says, and the four samplers
/// differ pairwise; the two repeating ones differ only in filtering.
pub proof fn lemma_sampler_settings_follow_names(kind: SamplerKind, other: SamplerKind)
    ensures
        named_settings(kind, spec_sampler_settings(kind)),
        kind != other ==> spec_sampler_settings(kind) != spec_sampler_settings(other),
        spec_sampler_settings(SamplerKind::RepeatNearest).address_mode_u == spec_sampler_settings(
            SamplerKind::RepeatLinear,
        ).address_mode_u,
        spec_sampler_settings(SamplerKind::RepeatNearest).mag_filter == FilterMode::Nearest,
        spec_sampler_settings(SamplerKind::RepeatLinear).mag_filter == FilterMode::Linear,
        spec_sampler_settings(SamplerKind::RepeatLinear).min_filter == FilterMode::Linear,
        spec_sampler_settings(SamplerKind::MirrorNearest).address_mode_u == AddressMode::MirrorRepeat,
        spec_sampler_settings(SamplerKind::MirrorNearest).address_mode_v == AddressMode::MirrorRepeat,
{
}

/// The settings of one of the renderer's samplers.
pub fn sampler_settings(kind: SamplerKind) -> (s: SamplerSettings)
    ensures
        s == spec_sampler_settings(kind),
        named_settings(kind, s),
        kind == SamplerKind::ClampLinear ==> s == (SamplerSettings {
            address_mode_u: AddressMode::ClampToEdge,
            address_mode_v: AddressMode::ClampToEdge,
            address_mode_w: AddressMode::ClampToEdge,
            mag_filter: FilterMode::Linear,
            min_filter: FilterMode::Nearest,
            mipmap_filter: FilterMode::Nearest,
        }),
        kind == SamplerKind::RepeatNearest ==> s == (SamplerSettings {
            address_mode_u: AddressMode::Repeat,
            address_mode_v: AddressMode::Repeat,
            address_mode_w: AddressMode::ClampToEdge,
            mag_filter: FilterMode::Nearest,
            min_filter: FilterMode::Nearest,
            mipmap_filter: FilterMode::Nearest,
        }),
        kind == SamplerKind::MirrorNearest ==> s == (SamplerSettings {
            address_mode_u: AddressMode::MirrorRepeat,
            address_mode_v: AddressMode::MirrorRepeat,
            address_mode_w: AddressMode::ClampToEdge,
            mag_filter: FilterMode::Nearest,
            min_filter: FilterMode::Nearest,
            mipmap_filter: FilterMode::Nearest,
        }),
        kind == SamplerKind::RepeatLinear ==> s == (SamplerSettings {
            address_mode_u: AddressMode::Repeat,
            address_mode_v: AddressMode::Repeat,
            address_mode_w: AddressMode::ClampToEdge,
            mag_filter: FilterMode::Linear,
            min_filter: FilterMode::Linear,
            mipmap_filter: FilterMode::Nearest,
        }),
{
    match kind {
        SamplerKind::ClampLinear => SamplerSettings {
            address_mode_u: AddressMode::ClampToEdge,
            address_mode_v: AddressMode::ClampToEdge,
            address_mode_w: AddressMode::ClampToEdge,
            mag_filter: FilterMode::Linear,
            min_filter: FilterMode::Nearest,
            mipmap_filter: FilterMode::Nearest,
        },
        SamplerKind::RepeatNearest => SamplerSettings {
            address_mode_u: AddressMode::Repeat,
            address_mode_v: AddressMode::Repeat,
            address_mode_w: AddressMode::ClampToEdge,
            mag_filter: FilterMode::Nearest,
            min_filter: FilterMode::Nearest,
            mipmap_filter: FilterMode::Nearest,
        },
        SamplerKind::MirrorNearest => SamplerSettings {
            address_mode_u: AddressMode::MirrorRepeat,
            address_mode_v: AddressMode::MirrorRepeat,
            address_mode_w: AddressMode::ClampToEdge,
            mag_filter: FilterMode::Nearest,
            min_filter: FilterMode::Nearest,
            mipmap_filter: FilterMode::Nearest,
        },
        SamplerKind::RepeatLinear => SamplerSettings {
            address_mode_u: AddressMode::Repeat,
            address_mode_v: AddressMode::Repeat,
            address_mode_w: AddressMode::ClampToEdge,
            mag_filter: FilterMode::Linear,
            min_filter: FilterMode::Linear,
            mipmap_filter: FilterMode::Nearest,
        },
    }
}

/// The sampler a texture is created with: clamped to the edge in u, v and
/// w, so that sampling outside `[0, 1]` does not wrap around; linear
/// magnification smooths an enlarged image, and nearest minification and
/// mipmap selection keep the setup simple. These are the settings of the
/// clamp-linear sampler.
pub fn texture_sampler_settings() -> (s: SamplerSettings)
    ensures
        s == (SamplerSettings {
            address_mode_u: AddressMode::ClampToEdge,
            address_mode_v: AddressMode::ClampToEdge,
            address_mode_w: AddressMode::ClampToEdge,
            mag_filter: FilterMode::Linear,
            min_filter: FilterMode::Nearest,
            mipmap_filter: FilterMode::Nearest,
        }),
        s == spec_sampler_settings(SamplerKind::ClampLinear),
{
    sampler_settings(SamplerKind::ClampLinear)
}

} // verus!
