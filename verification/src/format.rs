//! Surface format selection.

use vstd::prelude::*;

verus! {

/// `wgpu::TextureFormat`, the format of a surface's textures. Nothing is
/// claimed of its values; they are carried from the capabilities to the
/// configuration.
#[verifier::external_type_specification]
#[verifier::external_body]
pub struct ExTextureFormat(wgpu::TextureFormat);

/// `wgpu::PresentMode`, the pacing of presented frames. Nothing is claimed
/// of its values; they are carried through.
#[verifier::external_type_specification]
#[verifier::external_body]
pub struct ExPresentMode(wgpu::PresentMode);

/// `wgpu::CompositeAlphaMode`, the handling of the alpha channel when a
/// surface is composited. Nothing is claimed of its values; they are carried
/// through.
#[verifier::external_type_specification]
#[verifier::external_body]
pub struct ExCompositeAlphaMode(wgpu::CompositeAlphaMode);

/// What `wgpu::TextureFormat::is_srgb` answers for a format.
pub uninterp spec fn format_is_srgb(format: wgpu::TextureFormat) -> bool;

/// Calls `wgpu::TextureFormat::is_srgb`, which compares the format with the
/// same format stripped of its sRGB suffix. The answer depends on the format
/// alone; the contract gives it the name `format_is_srgb` and claims nothing
/// about which formats are sRGB.
#[verifier::external_body]
fn is_srgb(format: &wgpu::TextureFormat) -> (srgb: bool)
    ensures
        srgb == format_is_srgb(*format),
{
    format.is_srgb()
}

/// The sRGB flag of every format of a list, in order.
pub open spec fn srgb_flags(formats: Seq<wgpu::TextureFormat>) -> Seq<bool> {
    Seq::new(formats.len(), |i: int| format_is_srgb(formats[i]))
}

/// `index` is the position that selection picks in a list with these flags:
/// the first flagged position, or position 0 when nothing is flagged.
pub open spec fn is_preferred(flags: Seq<bool>, index: int) -> bool {
    &&& 0 <= index < flags.len()
    &&& forall|j: int| 0 <= j < index ==> !flags[j]
    &&& flags[index] || (index == 0 && forall|j: int| 0 <= j < flags.len() ==> !flags[j])
}

/// The position that selection picks in a non-empty list with these flags.
pub open spec fn preferred_position(flags: Seq<bool>) -> int {
    choose|index: int| is_preferred(flags, index)
}

/// The format that selection picks from a list of supported formats.
pub open spec fn selected_format(formats: Seq<wgpu::TextureFormat>) -> Option<wgpu::TextureFormat> {
    if formats.len() == 0 {
        None
    } else {
        Some(formats[preferred_position(srgb_flags(formats))])
    }
}

/// Computes the sRGB flag of every format of a list.
pub fn classify_formats(formats: &Vec<wgpu::TextureFormat>) -> (flags: Vec<bool>)
    ensures
        flags@ == srgb_flags(formats@),
{
    let mut flags: Vec<bool> = Vec::new();
    let mut i: usize = 0;
    while i < formats.len()
        invariant
            i <= formats.len(),
            flags.len() == i,
            forall|j: int| 0 <= j < i ==> flags[j] == format_is_srgb(formats[j]),
        decreases formats.len() - i,
    {
        let srgb = is_srgb(&formats[i]);
        flags.push(srgb);
        i += 1;
    }
    flags
}

/// Picks a position from a list of flags: the first flagged one, else the
/// first one. An empty list has no position to pick.
pub fn preferred_index(flags: &Vec<bool>) -> (picked: Option<usize>)
    ensures
        picked is None <==> flags.len() == 0,
        picked matches Some(i) ==> is_preferred(flags@, i as int) && i == preferred_position(
            flags@,
        ),
{
    if flags.len() == 0 {
        return None;
    }
    let mut i: usize = 0;
    while i < flags.len()
        invariant
            i <= flags.len(),
            forall|j: int| 0 <= j < i ==> !flags[j],
        decreases flags.len() - i,
    {
        if flags[i] {
            proof {
                lemma_preferred_position(flags@, i as int);
            }
            return Some(i);
        }
        i += 1;
    }
    proof {
        lemma_preferred_position(flags@, 0);
    }
    Some(0)
}

/// Picks the surface format: the first sRGB format of the list, or the first
/// format when none is sRGB. An empty list yields nothing.
pub fn select_format(formats: &Vec<wgpu::TextureFormat>) -> (picked: Option<wgpu::TextureFormat>)
    ensures
        picked == selected_format(formats@),
{
    let flags = classify_formats(formats);
    match preferred_index(&flags) {
        None => None,
        Some(i) => Some(formats[i]),
    }
}

/// Selection is deterministic: a list of flags has at most one preferred
/// position, so equal capability lists always yield the same choice.
pub proof fn lemma_preferred_is_unique(flags: Seq<bool>, a: int, b: int)
    requires
        is_preferred(flags, a),
        is_preferred(flags, b),
    ensures
        a == b,
{
    if a < b {
        assert(!flags[a]);
    } else if b < a {
        assert(!flags[b]);
    }
}

/// A position that meets `is_preferred` is the one that selection picks.
pub proof fn lemma_preferred_position(flags: Seq<bool>, index: int)
    requires
        is_preferred(flags, index),
    ensures
        preferred_position(flags) == index,
{
    lemma_preferred_is_unique(flags, index, preferred_position(flags));
}

} // verus!
