use vstd::prelude::*;

use crate::frame::Size;

verus! {

/// `wgpu::TextureFormat`, carried through as an opaque value.
#[verifier::external_type_specification]
#[verifier::external_body]
pub struct ExTextureFormat(wgpu::TextureFormat);

/// `wgpu::PresentMode`, carried through as an opaque value.
#[verifier::external_type_specification]
#[verifier::external_body]
pub struct ExPresentMode(wgpu::PresentMode);

/// `wgpu::CompositeAlphaMode`, carried through as an opaque value.
#[verifier::external_type_specification]
#[verifier::external_body]
pub struct ExCompositeAlphaMode(wgpu::CompositeAlphaMode);

/// Whether wgpu classes a texture format as sRGB-encoded (colours converted from
/// sRGB to linear on read and back on write).
pub uninterp spec fn srgb_format(format: wgpu::TextureFormat) -> bool;

/// Calls `wgpu::TextureFormat::describe` and reads its `srgb` flag; the flag
/// depends on the format alone, and is named `srgb_format`.
#[verifier::external_body]
fn format_is_srgb(format: &wgpu::TextureFormat) -> (srgb: bool)
    ensures
        srgb == srgb_format(*format),
{
    format.describe().srgb
}

/// The first sRGB entry: `k` is an index of an sRGB format and no earlier
/// format is sRGB.
pub open spec fn first_srgb_at(srgb_flags: Seq<bool>, k: int) -> bool {
    &&& 0 <= k < srgb_flags.len()
    &&& srgb_flags[k]
    &&& forall|j: int| 0 <= j < k ==> !srgb_flags[j]
}

/// Given which of the offered formats are sRGB, finds the one the surface is
/// configured with: the first sRGB format, or the first format when none is sRGB.
pub fn first_srgb_index(srgb_flags: &Vec<bool>) -> (k: usize)
    ensures
        k == preferred_format_index(srgb_flags@),
        (exists|i: int| 0 <= i < srgb_flags@.len() && srgb_flags@[i]) ==> first_srgb_at(srgb_flags@, k as int),
        !(exists|i: int| 0 <= i < srgb_flags@.len() && srgb_flags@[i]) ==> k == 0,
{
    let mut i: usize = 0;
    while i < srgb_flags.len()
        invariant
            0 <= i <= srgb_flags.len(),
            forall|j: int| 0 <= j < i ==> !srgb_flags@[j],
        decreases srgb_flags.len() - i,
    {
        if srgb_flags[i] {
            proof {
                lemma_first_srgb_is_preferred(srgb_flags@, i as int);
            }
            return i;
        }
        i = i + 1;
    }
    proof {
        lemma_first_srgb_is_preferred(srgb_flags@, 0);
    }
    0
}

/// The index of the format the surface is configured with, given which of the
/// offered formats are sRGB: the first sRGB one, or the first one when none is.
pub open spec fn preferred_format_index(srgb_flags: Seq<bool>) -> int {
    if exists|i: int| 0 <= i < srgb_flags.len() && srgb_flags[i] {
        choose|k: int| first_srgb_at(srgb_flags, k)
    } else {
        0
    }
}

/// Which of `formats` are sRGB.
pub open spec fn srgb_flags_of(formats: Seq<wgpu::TextureFormat>) -> Seq<bool> {
    formats.map_values(|f: wgpu::TextureFormat| srgb_format(f))
}

/// There is at most one first sRGB entry.
proof fn lemma_first_srgb_unique(flags: Seq<bool>, k: int, m: int)
    requires
        first_srgb_at(flags, k),
        first_srgb_at(flags, m),
    ensures
        k == m,
{
    if k < m {
        assert(!flags[k]);
    } else if m < k {
        assert(!flags[m]);
    }
}

/// The result of `first_srgb_index` is `preferred_format_index` of its flags.
proof fn lemma_first_srgb_is_preferred(flags: Seq<bool>, k: int)
    requires
        (exists|i: int| 0 <= i < flags.len() && flags[i]) ==> first_srgb_at(flags, k),
        !(exists|i: int| 0 <= i < flags.len() && flags[i]) ==> k == 0,
    ensures
        k == preferred_format_index(flags),
{
    if exists|i: int| 0 <= i < flags.len() && flags[i] {
        let c = choose|c: int| first_srgb_at(flags, c);
        assert(first_srgb_at(flags, k));
        lemma_first_srgb_unique(flags, k, c);
    }
}

/// Picks the format the surface is configured with: the first sRGB format
/// offered, or the first format offered when none is sRGB.
pub fn choose_surface_format(formats: &Vec<wgpu::TextureFormat>) -> (format: wgpu::TextureFormat)
    requires
        formats@.len() > 0,
    ensures
        format == formats@[preferred_format_index(srgb_flags_of(formats@))],
{
    let mut flags: Vec<bool> = Vec::new();
    let mut i: usize = 0;
    while i < formats.len()
        invariant
            0 <= i <= formats@.len(),
            flags@ == srgb_flags_of(formats@).take(i as int),
        decreases formats@.len() - i,
    {
        let srgb = format_is_srgb(&formats[i]);
        flags.push(srgb);
        proof {
            assert(srgb_flags_of(formats@).take(i + 1) =~= srgb_flags_of(formats@).take(i as int).push(srgb));
        }
        i = i + 1;
    }
    proof {
        assert(flags@ =~= srgb_flags_of(formats@));
    }
    let k = first_srgb_index(&flags);
    formats[k]
}

/// When some offered format is sRGB, the chosen one is sRGB and no earlier
/// offered format is; in every case the chosen format is one that was offered.
pub proof fn lemma_preferred_format(flags: Seq<bool>)
    requires
        flags.len() > 0,
    ensures
        0 <= preferred_format_index(flags) < flags.len(),
        (exists|i: int| 0 <= i < flags.len() && flags[i]) ==> first_srgb_at(
            flags,
            preferred_format_index(flags),
        ),
{
    if exists|i: int| 0 <= i < flags.len() && flags[i] {
        let i = choose|i: int| 0 <= i < flags.len() && flags[i];
        lemma_first_srgb_exists(flags, i);
    }
}

/// A sequence with an sRGB entry at `i` has a first sRGB entry.
proof fn lemma_first_srgb_exists(flags: Seq<bool>, i: int)
    requires
        0 <= i < flags.len(),
        flags[i],
    ensures
        exists|k: int| first_srgb_at(flags, k),
    decreases i,
{
    if exists|j: int| 0 <= j < i && flags[j] {
        let j = choose|j: int| 0 <= j < i && flags[j];
        lemma_first_srgb_exists(flags, j);
    } else {
        assert(first_srgb_at(flags, i));
    }
}

/// How the surface is configured: the format, presentation mode and alpha mode
/// picked from what the surface offers, and the size to render at.
#[derive(Clone, Copy)]
pub struct SurfacePlan {
    pub format: wgpu::TextureFormat,
    pub present_mode: wgpu::PresentMode,
    pub alpha_mode: wgpu::CompositeAlphaMode,
    pub width: u32,
    pub height: u32,
}

/// Plans the surface configuration from the surface's capabilities: the
/// preferred format, the first presentation mode and the first alpha mode
/// offered, at `size`.
pub fn plan_surface(
    formats: &Vec<wgpu::TextureFormat>,
    present_modes: &Vec<wgpu::PresentMode>,
    alpha_modes: &Vec<wgpu::CompositeAlphaMode>,
    size: Size,
) -> (plan: SurfacePlan)
    requires
        formats@.len() > 0,
        present_modes@.len() > 0,
        alpha_modes@.len() > 0,
    ensures
        plan.format == formats@[preferred_format_index(srgb_flags_of(formats@))],
        plan.present_mode == present_modes@[0],
        plan.alpha_mode == alpha_modes@[0],
        plan.width == size.width,
        plan.height == size.height,
{
    SurfacePlan {
        format: choose_surface_format(formats),
        present_mode: present_modes[0],
        alpha_mode: alpha_modes[0],
        width: size.width,
        height: size.height,
    }
}

} // verus!
