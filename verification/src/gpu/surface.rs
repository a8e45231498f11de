//! The presentation surface: what it is configured with, and how that
//! follows the window's size.

use crate::resolution::Resolution;
use vstd::prelude::*;

verus! {

/// What a surface offers on the chosen adapter, as far as the choice of a
/// configuration reads it. Formats and modes are meant by their place in the
/// lists that the adapter reported.
pub struct SurfaceCapabilities {
    /// For each format, in the adapter's order, whether it is an sRGB format.
    pub formats_srgb: Vec<bool>,
    /// How many present modes the adapter listed.
    pub present_modes: usize,
    /// How many alpha modes the adapter listed.
    pub alpha_modes: usize,
}

/// What the textures of a surface may be used for.
#[derive(Clone, Copy, Debug, PartialEq, Eq, Structural)]
pub struct TextureUsages {
    pub copy_src: bool,
    pub copy_dst: bool,
    pub texture_binding: bool,
    pub storage_binding: bool,
    pub render_attachment: bool,
}

/// The use of the textures that a frame is drawn into: as the attachment of
/// render passes, and nothing else.
pub open spec fn render_attachment() -> TextureUsages {
    TextureUsages {
        copy_src: false,
        copy_dst: false,
        texture_binding: false,
        storage_binding: false,
        render_attachment: true,
    }
}

/// What a surface is configured with. Its textures are viewed in their own
/// format only.
#[derive(Clone, Copy, Debug, PartialEq, Eq, Structural)]
pub struct SurfaceConfiguration {
    pub usage: TextureUsages,
    /// The place of the texture format in the adapter's list.
    pub format: usize,
    pub width: u32,
    pub height: u32,
    /// The place of the present mode in the adapter's list.
    pub present_mode: usize,
    /// The place of the alpha mode in the adapter's list.
    pub alpha_mode: usize,
    pub desired_maximum_frame_latency: u32,
}

/// `index` is the format to take from a list with these sRGB flags: the
/// first sRGB format, or the first format of all if none is sRGB.
pub open spec fn is_preferred_format(formats_srgb: Seq<bool>, index: int) -> bool {
    &&& 0 <= index < formats_srgb.len()
    &&& forall|j: int| 0 <= j < index ==> !formats_srgb[j]
    &&& formats_srgb[index] || (index == 0 && forall|j: int|
        0 <= j < formats_srgb.len() ==> !formats_srgb[j])
}

/// The preferred format is unique.
pub proof fn lemma_preferred_format_is_unique(formats_srgb: Seq<bool>, a: int, b: int)
    requires
        is_preferred_format(formats_srgb, a),
        is_preferred_format(formats_srgb, b),
    ensures
        a == b,
{
}

/// Picks the format for a surface: the first sRGB one, else the first.
pub fn choose_format(formats_srgb: &Vec<bool>) -> (index: usize)
    requires
        formats_srgb@.len() > 0,
    ensures
        is_preferred_format(formats_srgb@, index as int),
{
    let mut i: usize = 0;
    while i < formats_srgb.len()
        invariant
            i <= formats_srgb@.len(),
            forall|j: int| 0 <= j < i ==> !formats_srgb@[j],
        decreases formats_srgb@.len() - i,
    {
        if formats_srgb[i] {
            return i;
        }
        i += 1;
    }
    0
}

/// The state of the presentation surface that the library keeps: the
/// configuration that the surface has, or is to get next.
pub struct Surface {
    config: SurfaceConfiguration,
}

impl View for Surface {
    type V = SurfaceConfiguration;

    closed spec fn view(&self) -> SurfaceConfiguration {
        self.config
    }
}

impl Surface {
    /// The surface for a window of the given size: it takes the preferred
    /// format, the adapter's first present mode and its first alpha mode.
    pub fn new<R: Resolution<u32>>(capabilities: &SurfaceCapabilities, resolution: R) -> (surface:
        Self)
        requires
            capabilities.formats_srgb@.len() > 0,
            capabilities.present_modes > 0,
            capabilities.alpha_modes > 0,
        ensures
            surface@.usage == render_attachment(),
            is_preferred_format(capabilities.formats_srgb@, surface@.format as int),
            resolution.has_width(surface@.width),
            resolution.has_height(surface@.height),
            surface@.present_mode == 0,
            surface@.alpha_mode == 0,
            surface@.desired_maximum_frame_latency == 2,
    {
        let format = choose_format(&capabilities.formats_srgb);
        let config = SurfaceConfiguration {
            usage: TextureUsages {
                copy_src: false,
                copy_dst: false,
                texture_binding: false,
                storage_binding: false,
                render_attachment: true,
            },
            format,
            width: resolution.get_width(),
            height: resolution.get_height(),
            present_mode: 0,
            alpha_mode: 0,
            desired_maximum_frame_latency: 2,
        };
        Surface { config }
    }

    /// The configuration that the surface is to have.
    pub fn configuration(&self) -> (config: SurfaceConfiguration)
        ensures
            config == self@,
    {
        self.config
    }

    /// Takes over a new size and returns the configuration to apply. Nothing
    /// but width and height changes.
    pub fn resize<R: Resolution<u32>>(&mut self, resolution: R) -> (config: SurfaceConfiguration)
        ensures
            config == final(self)@,
            resolution.has_width(config.width),
            resolution.has_height(config.height),
            config == (SurfaceConfiguration {
                width: config.width,
                height: config.height,
                ..old(self)@
            }),
    {
        self.config.width = resolution.get_width();
        self.config.height = resolution.get_height();
        self.config
    }
}

} // verus!
