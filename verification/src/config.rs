//! Surface configuration: window sizes, the platform's capability lists as
//! plain values, and the policy that derives a presentable configuration
//! from them.

use vstd::prelude::*;

verus! {

/// Usage flags for a surface texture that is used as a render target and
/// nothing else (the platform's render-attachment bit).
pub const RENDER_ATTACHMENT_USAGE: u32 = 16;

/// A window-size snapshot in physical pixels.
#[derive(Clone, Copy, PartialEq, Eq, Structural, Debug)]
pub struct WindowSize {
    pub width: u32,
    pub height: u32,
}

impl WindowSize {
    /// A configuration may be applied to the surface only with a positive
    /// area; a zero-area size must be skipped, never submitted.
    pub open spec fn positive(self) -> bool {
        self.width > 0 && self.height > 0
    }

    pub fn new(width: u32, height: u32) -> (size: Self)
        ensures
            size.width == width,
            size.height == height,
    {
        WindowSize { width, height }
    }
}

/// One pixel format reported by the platform: an opaque platform identifier
/// and whether the format is color-space correct (its sample values are
/// interpreted in a gamma-corrected color space).
#[derive(Clone, Copy, PartialEq, Eq, Structural, Debug)]
pub struct FormatCaps {
    /// Opaque identifier for the platform's format; the caller that supplies
    /// the capability list chooses the encoding (typically the entry's index
    /// in the platform's own list).
    pub id: u32,
    /// Whether the format is color-space correct ("sRGB-like").
    pub srgb: bool,
}

/// The capability set of one surface/adapter pair, as reported by the
/// platform: supported formats, present modes and alpha composition modes,
/// each list in the platform's own order. Present modes and alpha modes are
/// carried as opaque platform identifiers.
#[derive(Debug)]
pub struct SurfaceCaps {
    pub formats: Vec<FormatCaps>,
    pub present_modes: Vec<u32>,
    pub alpha_modes: Vec<u32>,
}

impl SurfaceCaps {
    /// A platform reports at least one entry in each list for a compatible
    /// surface/adapter pair; configuration is derived only from such a set.
    pub open spec fn wf(&self) -> bool {
        &&& self.formats@.len() > 0
        &&& self.present_modes@.len() > 0
        &&& self.alpha_modes@.len() > 0
    }
}

/// A presentation configuration for the surface. Width and height are
/// positive whenever the configuration is applied to the surface.
#[derive(Clone, Copy, PartialEq, Eq, Structural, Debug)]
pub struct SurfaceConfig {
    pub usage: u32,
    pub format: FormatCaps,
    pub width: u32,
    pub height: u32,
    pub present_mode: u32,
    pub alpha_mode: u32,
}

/// The first color-space-correct format of the list, if any.
pub open spec fn first_srgb(formats: Seq<FormatCaps>) -> Option<FormatCaps>
    decreases formats.len(),
{
    if formats.len() == 0 {
        None
    } else if formats[0].srgb {
        Some(formats[0])
    } else {
        first_srgb(formats.drop_first())
    }
}

/// Format selection policy: prefer the first capability-listed format that
/// is color-space correct; if none qualifies, fall back to the first listed
/// format.
pub open spec fn select_format(formats: Seq<FormatCaps>) -> FormatCaps
    recommends
        formats.len() > 0,
{
    match first_srgb(formats) {
        Some(f) => f,
        None => formats[0],
    }
}

/// The configuration derived from a capability set and a window size:
/// the selected format, the first reported present mode and alpha mode,
/// render-attachment usage only, and the window's dimensions.
pub open spec fn spec_config(caps: SurfaceCaps, size: WindowSize) -> SurfaceConfig {
    SurfaceConfig {
        usage: RENDER_ATTACHMENT_USAGE,
        format: select_format(caps.formats@),
        width: size.width,
        height: size.height,
        present_mode: caps.present_modes@[0],
        alpha_mode: caps.alpha_modes@[0],
    }
}

/// Returns the first color-space-correct format of the list, if any.
fn find_srgb(formats: &Vec<FormatCaps>) -> (found: Option<FormatCaps>)
    ensures
        found == first_srgb(formats@),
{
    let mut i: usize = 0;
    proof {
        assert(formats@.skip(0) =~= formats@);
    }
    while i < formats.len()
        invariant
            i <= formats@.len(),
            first_srgb(formats@) == first_srgb(formats@.skip(i as int)),
        decreases formats@.len() - i,
    {
        if formats[i].srgb {
            proof {
                assert(formats@.skip(i as int)[0] == formats@[i as int]);
            }
            return Some(formats[i]);
        }
        proof {
            assert(formats@.skip(i as int).drop_first() =~= formats@.skip(i as int + 1));
        }
        i = i + 1;
    }
    proof {
        assert(formats@.skip(i as int) =~= Seq::<FormatCaps>::empty());
    }
    None
}

/// Derives the presentation configuration from the reported capability set
/// and the current window size.
pub fn generate_config(caps: &SurfaceCaps, size: WindowSize) -> (config: SurfaceConfig)
    requires
        caps.wf(),
    ensures
        config == spec_config(*caps, size),
{
    let format = match find_srgb(&caps.formats) {
        Some(f) => f,
        None => caps.formats[0],
    };
    SurfaceConfig {
        usage: RENDER_ATTACHMENT_USAGE,
        format,
        width: size.width,
        height: size.height,
        present_mode: caps.present_modes[0],
        alpha_mode: caps.alpha_modes[0],
    }
}

/// Selection policy, stated positionally: where entry `i` is the first
/// color-space-correct format of the list, that entry is selected.
pub proof fn lemma_select_first_srgb(formats: Seq<FormatCaps>, i: int)
    requires
        0 <= i < formats.len(),
        formats[i].srgb,
        forall|j: int| 0 <= j < i ==> !formats[j].srgb,
    ensures
        select_format(formats) == formats[i],
    decreases i,
{
    if i == 0 {
    } else {
        assert(formats.drop_first()[i - 1] == formats[i]);
        assert(forall|j: int| 0 <= j < i - 1 ==> formats.drop_first()[j] == formats[j + 1]);
        lemma_select_first_srgb(formats.drop_first(), i - 1);
    }
}

/// Selection policy, fallback direction: where no listed format is
/// color-space correct, the first listed format is selected.
pub proof fn lemma_select_fallback(formats: Seq<FormatCaps>)
    requires
        formats.len() > 0,
        forall|i: int| 0 <= i < formats.len() ==> !formats[i].srgb,
    ensures
        select_format(formats) == formats[0],
{
    lemma_first_srgb_none(formats);
}

proof fn lemma_first_srgb_none(formats: Seq<FormatCaps>)
    requires
        forall|i: int| 0 <= i < formats.len() ==> !formats[i].srgb,
    ensures
        first_srgb(formats) is None,
    decreases formats.len(),
{
    if formats.len() > 0 {
        assert(forall|i: int| 0 <= i < formats.drop_first().len()
            ==> formats.drop_first()[i] == formats[i + 1]);
        lemma_first_srgb_none(formats.drop_first());
    }
}

} // verus!
