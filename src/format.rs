use vstd::prelude::*;
use wgpu::{CompositeAlphaMode, PresentMode, TextureFormat};

verus! {

#[verifier::external_type_specification]
#[verifier::external_body]
pub struct ExTextureFormat(wgpu::TextureFormat);

#[verifier::external_type_specification]
#[verifier::external_body]
pub struct ExPresentMode(wgpu::PresentMode);

#[verifier::external_type_specification]
#[verifier::external_body]
pub struct ExCompositeAlphaMode(wgpu::CompositeAlphaMode);

/// Whether a texture format stores gamma-encoded (sRGB) color.
pub uninterp spec fn is_srgb(f: TextureFormat) -> bool;

/// Relies on wgpu's `TextureFormat::describe`, whose `srgb` field tells
/// whether the format is gamma-corrected; it is fixed by the format alone.
#[verifier::external_body]
fn format_is_srgb(f: TextureFormat) -> (r: bool)
    ensures
        r == is_srgb(f),
{
    f.describe().srgb
}

/// `k` is the preferred entry of a list whose entries are marked sRGB or not:
/// the first marked one, or the first entry when none is marked.
pub open spec fn is_preferred_index(srgb: Seq<bool>, k: int) -> bool {
    &&& 0 <= k < srgb.len()
    &&& (exists|i: int| 0 <= i < srgb.len() && srgb[i]) ==> srgb[k] && forall|j: int|
        0 <= j < k ==> !srgb[j]
    &&& (forall|i: int| 0 <= i < srgb.len() ==> !srgb[i]) ==> k == 0
}

/// The sRGB marks of a list of formats.
pub open spec fn srgb_marks(formats: Seq<TextureFormat>) -> Seq<bool> {
    formats.map_values(|f: TextureFormat| is_srgb(f))
}

/// Picks the preferred entry of a list given each entry's sRGB mark: the
/// first marked entry, else the first entry; `None` for an empty list.
pub fn preferred_index(srgb: &Vec<bool>) -> (r: Option<usize>)
    ensures
        srgb.len() == 0 <==> r is None,
        r is Some ==> is_preferred_index(srgb@, r->Some_0 as int),
{
    let mut i: usize = 0;
    while i < srgb.len()
        invariant
            0 <= i <= srgb.len(),
            forall|j: int| 0 <= j < i ==> !srgb@[j],
        decreases srgb.len() - i,
    {
        if srgb[i] {
            return Some(i);
        }
        i = i + 1;
    }
    if srgb.len() == 0 {
        None
    } else {
        Some(0)
    }
}

/// Chooses the surface format: the first sRGB format the surface supports,
/// else the first supported format; `None` when none is supported.
pub fn select_surface_format(formats: &Vec<TextureFormat>) -> (r: Option<TextureFormat>)
    ensures
        formats.len() == 0 <==> r is None,
        r is Some ==> exists|k: int|
            is_preferred_index(srgb_marks(formats@), k) && r->Some_0 == formats@[k],
{
    let mut marks: Vec<bool> = Vec::new();
    let mut i: usize = 0;
    while i < formats.len()
        invariant
            0 <= i <= formats.len(),
            marks@ == srgb_marks(formats@.take(i as int)),
        decreases formats.len() - i,
    {
        let m = format_is_srgb(formats[i]);
        assert(srgb_marks(formats@.take(i + 1)) =~= srgb_marks(formats@.take(i as int)).push(m));
        marks.push(m);
        i = i + 1;
    }
    assert(formats@.take(formats.len() as int) =~= formats@);
    match preferred_index(&marks) {
        Some(k) => Some(formats[k]),
        None => None,
    }
}

} // verus!
