//! The choices that configure the presentation surface. The surface offers
//! lists of texture formats, present modes and alpha modes; the shader
//! assumes an sRGB target, so the first sRGB format wins, and the first
//! offered entry of each remaining list is taken as-is.

use vstd::prelude::*;

verus! {

/// Pick the surface format: the index of the first sRGB format the surface
/// offers, or index 0 when none is sRGB. `srgb[i]` says whether the i-th
/// offered format is sRGB. `None` exactly when nothing is offered.
pub fn choose_format_index(srgb: &Vec<bool>) -> (r: Option<usize>)
    ensures
        r is Some <==> srgb@.len() > 0,
        r matches Some(i) ==> i < srgb@.len() && (forall|j: int| 0 <= j < i ==> !srgb@[j]),
        r matches Some(i) ==> if (exists|j: int| 0 <= j < srgb@.len() && srgb@[j]) {
            srgb@[i as int]
        } else {
            i == 0
        },
{
    let mut i: usize = 0;
    while i < srgb.len()
        invariant
            i <= srgb@.len(),
            forall|j: int| 0 <= j < i ==> !srgb@[j],
        decreases srgb@.len() - i,
    {
        if srgb[i] {
            return Some(i);
        }
        i = i + 1;
    }
    if srgb.len() > 0 {
        Some(0)
    } else {
        None
    }
}

/// How to configure the surface: which of the offered formats, present
/// modes and alpha modes to use (as indices into the offered lists), and
/// the size to cover.
#[derive(Clone, Copy, Debug, PartialEq, Eq, Structural)]
pub struct SurfacePlan {
    pub format_index: usize,
    pub present_mode_index: usize,
    pub alpha_mode_index: usize,
    pub width: u32,
    pub height: u32,
}

/// Configure the surface at the window's size: the first sRGB format if one
/// is offered (else the first format of all), and the first offered present
/// and alpha modes. The surface must offer at least one entry of each.
pub fn surface_plan(
    srgb: &Vec<bool>,
    n_present_modes: usize,
    n_alpha_modes: usize,
    width: u32,
    height: u32,
) -> (p: SurfacePlan)
    requires
        srgb@.len() > 0,
        n_present_modes > 0,
        n_alpha_modes > 0,
    ensures
        p.format_index < srgb@.len(),
        forall|j: int| 0 <= j < p.format_index ==> !srgb@[j],
        if (exists|j: int| 0 <= j < srgb@.len() && srgb@[j]) {
            srgb@[p.format_index as int]
        } else {
            p.format_index == 0
        },
        p.present_mode_index == 0,
        p.alpha_mode_index == 0,
        p.width == width,
        p.height == height,
{
    let format_index = match choose_format_index(srgb) {
        Some(i) => i,
        None => 0,
    };
    SurfacePlan { format_index, present_mode_index: 0, alpha_mode_index: 0, width, height }
}

} // verus!
