use vstd::prelude::*;

verus! {

/// `wgpu::TextureFormat`, carried as an opaque value.
#[verifier::external_type_specification]
#[verifier::external_body]
pub struct ExTextureFormat(wgpu::TextureFormat);

/// `wgpu::PresentMode`, carried as an opaque value.
#[verifier::external_type_specification]
#[verifier::external_body]
pub struct ExPresentMode(wgpu::PresentMode);

/// `wgpu::CompositeAlphaMode`, carried as an opaque value.
#[verifier::external_type_specification]
#[verifier::external_body]
pub struct ExCompositeAlphaMode(wgpu::CompositeAlphaMode);

/// Whether a texture format keeps its colour channels sRGB encoded.
pub uninterp spec fn srgb_encoded(format: wgpu::TextureFormat) -> bool;

/// Calls `wgpu::TextureFormat::is_srgb`, which compares the format with its
/// counterpart without the sRGB suffix. Nothing is proved of the call; the
/// contract only claims that the answer depends on the format alone.
#[verifier::external_body]
fn is_srgb(format: &wgpu::TextureFormat) -> (srgb: bool)
    ensures
        srgb == srgb_encoded(*format),
{
    format.is_srgb()
}

/// Frames that a configured surface may queue ahead of the display.
pub const FRAME_LATENCY: u32 = 2;

/// What a surface supports when driven by the adapter chosen for it.
#[derive(Clone, Debug)]
pub struct SurfaceCapabilities {
    pub formats: Vec<wgpu::TextureFormat>,
    pub present_modes: Vec<wgpu::PresentMode>,
    pub alpha_modes: Vec<wgpu::CompositeAlphaMode>,
}

/// The negotiated format, extent and presentation timing of a surface.
#[derive(Clone, Copy, Debug, PartialEq)]
pub struct SurfaceConfig {
    pub format: wgpu::TextureFormat,
    pub width: u32,
    pub height: u32,
    pub present_mode: wgpu::PresentMode,
    pub alpha_mode: wgpu::CompositeAlphaMode,
    pub desired_maximum_frame_latency: u32,
}

/// Why a state could not be set up for a surface.
#[derive(Clone, Copy, Debug, PartialEq, Eq, Structural)]
pub enum SetupError {
    /// The surface offers no texture format with the chosen adapter.
    NoSurfaceFormat,
    /// The surface offers no presentation mode with the chosen adapter.
    NoPresentMode,
    /// The surface offers no alpha mode with the chosen adapter.
    NoAlphaMode,
}

impl SetupError {
    /// What went wrong, in words.
    pub open spec fn description(self) -> Seq<char> {
        match self {
            SetupError::NoSurfaceFormat => "the surface offers no texture format to the adapter"@,
            SetupError::NoPresentMode => "the surface offers no presentation mode to the adapter"@,
            SetupError::NoAlphaMode => "the surface offers no alpha mode to the adapter"@,
        }
    }

    /// What went wrong, in words.
    pub fn message(&self) -> (text: &'static str)
        ensures
            text@ == self.description(),
    {
        match self {
            SetupError::NoSurfaceFormat => "the surface offers no texture format to the adapter",
            SetupError::NoPresentMode => "the surface offers no presentation mode to the adapter",
            SetupError::NoAlphaMode => "the surface offers no alpha mode to the adapter",
        }
    }
}

/// Why a frame could not be acquired or presented.
#[derive(Clone, Copy, Debug, PartialEq, Eq, Structural)]
pub enum SurfaceError {
    /// The next frame did not become available in time.
    Timeout,
    /// The surface changed underneath its configuration.
    Outdated,
    /// The swap chain is gone.
    Lost,
    /// No memory is left for a new frame.
    OutOfMemory,
    /// Anything else.
    Other,
}

impl SurfaceError {
    /// A lost or outdated surface comes back once it is configured again.
    pub open spec fn recoverable(self) -> bool {
        self == SurfaceError::Lost || self == SurfaceError::Outdated
    }

    /// Whether configuring the surface again answers this failure.
    pub fn is_recoverable(&self) -> (recoverable: bool)
        ensures
            recoverable == self.recoverable(),
    {
        match self {
            SurfaceError::Lost | SurfaceError::Outdated => true,
            _ => false,
        }
    }
}

/// For each format, whether it is sRGB encoded.
pub open spec fn srgb_flags(formats: Seq<wgpu::TextureFormat>) -> Seq<bool> {
    Seq::new(formats.len(), |i: int| srgb_encoded(formats[i]))
}

/// `index` is the position of the first set flag, or of the first entry when
/// no flag is set.
pub open spec fn is_preferred(flags: Seq<bool>, index: int) -> bool {
    &&& 0 <= index < flags.len()
    &&& forall|j: int| 0 <= j < index ==> !flags[j]
    &&& (flags[index] || (index == 0 && forall|j: int| 0 <= j < flags.len() ==> !flags[j]))
}

/// The position that `is_preferred` singles out.
pub open spec fn preferred(flags: Seq<bool>) -> int {
    choose|index: int| is_preferred(flags, index)
}

/// A preferred position is the only one, and is the one that `preferred` names.
pub proof fn lemma_preferred_unique(flags: Seq<bool>, index: int)
    requires
        is_preferred(flags, index),
    ensures
        preferred(flags) == index,
        forall|other: int| is_preferred(flags, other) ==> other == index,
{
    assert forall|other: int| is_preferred(flags, other) implies other == index by {
        if other < index {
            assert(!flags[other]);
        } else if index < other {
            assert(!flags[index]);
        }
    }
    assert(is_preferred(flags, preferred(flags)));
}

/// The format to present in: the first sRGB encoded one on offer, or the
/// first on offer when none is.
pub open spec fn preferred_format(formats: Seq<wgpu::TextureFormat>) -> wgpu::TextureFormat
    recommends
        formats.len() > 0,
{
    formats[preferred(srgb_flags(formats))]
}

/// Finds the preferred position among the given flags.
pub fn preferred_index(flags: &Vec<bool>) -> (index: usize)
    requires
        flags.len() > 0,
    ensures
        is_preferred(flags@, index as int),
        index == preferred(flags@),
{
    let mut i: usize = 0;
    while i < flags.len()
        invariant
            i <= flags.len(),
            forall|j: int| 0 <= j < i ==> !flags@[j],
        decreases flags.len() - i,
    {
        if flags[i] {
            proof {
                lemma_preferred_unique(flags@, i as int);
            }
            return i;
        }
        i += 1;
    }
    proof {
        lemma_preferred_unique(flags@, 0);
    }
    0
}

/// Asks of each format whether it is sRGB encoded.
pub fn format_flags(formats: &Vec<wgpu::TextureFormat>) -> (flags: Vec<bool>)
    ensures
        flags@ == srgb_flags(formats@),
{
    let mut flags: Vec<bool> = Vec::new();
    let mut i: usize = 0;
    while i < formats.len()
        invariant
            i <= formats.len(),
            flags.len() == i,
            forall|j: int| 0 <= j < i ==> flags@[j] == srgb_encoded(formats@[j]),
        decreases formats.len() - i,
    {
        flags.push(is_srgb(&formats[i]));
        i += 1;
    }
    assert(flags@ =~= srgb_flags(formats@));
    flags
}

/// Picks the format to present in from those on offer: the first sRGB
/// encoded one, or the first of all when none is sRGB encoded.
pub fn choose_format(formats: &Vec<wgpu::TextureFormat>) -> (format: wgpu::TextureFormat)
    requires
        formats.len() > 0,
    ensures
        format == preferred_format(formats@),
        exists|index: int|
            {
                &&& 0 <= index < formats.len()
                &&& format == #[trigger] formats@[index]
                &&& forall|j: int| 0 <= j < index ==> !srgb_encoded(formats@[j])
            },
        !srgb_encoded(format) ==> format == formats@[0] && forall|j: int|
            0 <= j < formats.len() ==> !srgb_encoded(formats@[j]),
{
    let flags = format_flags(formats);
    let index = preferred_index(&flags);
    proof {
        assert forall|j: int| 0 <= j < formats.len() implies flags@[j] == #[trigger] srgb_encoded(
            formats@[j],
        ) by {}
        assert(flags@[index as int] == srgb_encoded(formats@[index as int]));
    }
    formats[index]
}

impl SurfaceCapabilities {
    /// The first of the three lists that is empty, if any is: a surface that
    /// cannot be used with its adapter reports nothing to choose from.
    pub open spec fn shortfall(&self) -> Option<SetupError> {
        if self.formats@.len() == 0 {
            Some(SetupError::NoSurfaceFormat)
        } else if self.present_modes@.len() == 0 {
            Some(SetupError::NoPresentMode)
        } else if self.alpha_modes@.len() == 0 {
            Some(SetupError::NoAlphaMode)
        } else {
            None
        }
    }

    /// The configuration for a surface of the given extent: the preferred
    /// format, and the first presentation and alpha modes on offer.
    pub open spec fn config_for(&self, width: u32, height: u32) -> SurfaceConfig
        recommends
            self.shortfall() is None,
    {
        SurfaceConfig {
            format: preferred_format(self.formats@),
            width,
            height,
            present_mode: self.present_modes@[0],
            alpha_mode: self.alpha_modes@[0],
            desired_maximum_frame_latency: FRAME_LATENCY,
        }
    }

    /// Negotiates the configuration for a surface of the given extent.
    pub fn configure(&self, width: u32, height: u32) -> (result: Result<SurfaceConfig, SetupError>)
        ensures
            match result {
                Ok(config) => self.shortfall() is None && config == self.config_for(width, height),
                Err(error) => self.shortfall() == Some(error),
            },
    {
        if self.formats.len() == 0 {
            return Err(SetupError::NoSurfaceFormat);
        }
        if self.present_modes.len() == 0 {
            return Err(SetupError::NoPresentMode);
        }
        if self.alpha_modes.len() == 0 {
            return Err(SetupError::NoAlphaMode);
        }
        Ok(
            SurfaceConfig {
                format: choose_format(&self.formats),
                width,
                height,
                present_mode: self.present_modes[0],
                alpha_mode: self.alpha_modes[0],
                desired_maximum_frame_latency: FRAME_LATENCY,
            },
        )
    }
}

} // verus!
