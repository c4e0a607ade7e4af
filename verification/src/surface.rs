//! Choosing the properties of the presentation surface from what the
//! platform reports.

use vstd::prelude::*;

verus! {

/// Width and height in pixels.
#[derive(Clone, Copy, Debug, PartialEq, Eq, Structural)]
pub struct Extent {
    pub width: u32,
    pub height: u32,
}

impl Extent {
    /// The extent covers no pixel.
    pub open spec fn is_empty(self) -> bool {
        self.width == 0 || self.height == 0
    }

    /// Whether the extent covers no pixel.
    pub fn has_zero_area(&self) -> (r: bool)
        ensures
            r == self.is_empty(),
    {
        self.width == 0 || self.height == 0
    }
}

/// How finished images are handed to the display.
#[derive(Clone, Copy, Debug, PartialEq, Eq, Structural)]
pub enum PresentMode {
    Immediate,
    Mailbox,
    Fifo,
    FifoRelaxed,
}

/// A pixel format together with its color space, both as the platform's codes.
#[derive(Clone, Copy, Debug, PartialEq, Eq, Structural)]
pub struct SurfaceFormat {
    pub format: i32,
    pub color_space: i32,
}

/// Code of the 8-bit BGRA format with unsigned normalized components.
pub const FORMAT_B8G8R8A8_UNORM: i32 = 44;

/// Code of the non-linear sRGB color space.
pub const COLOR_SPACE_SRGB_NONLINEAR: i32 = 0;

/// The ranges inside which a surface can be created.
#[derive(Clone, Copy, Debug, PartialEq, Eq, Structural)]
pub struct SurfaceCapabilities {
    pub min_image_count: u32,
    /// Zero stands for "no upper limit".
    pub max_image_count: u32,
    pub min_image_extent: Extent,
    pub max_image_extent: Extent,
}

/// Everything the platform reports about a surface.
pub struct SwapchainSupportDetails {
    pub capabilities: SurfaceCapabilities,
    pub formats: Vec<SurfaceFormat>,
    pub present_modes: Vec<PresentMode>,
}

/// The properties a surface is created with.
#[derive(Clone, Copy, Debug, PartialEq, Eq, Structural)]
pub struct SwapchainProperties {
    pub format: SurfaceFormat,
    pub present_mode: PresentMode,
    pub extent: Extent,
    pub image_count: u32,
}

/// Why no surface can be created.
#[derive(Clone, Copy, Debug, PartialEq, Eq, Structural)]
pub enum SurfaceError {
    /// The requested extent, or what the platform's limits leave of it, covers no pixel.
    ZeroArea,
    /// The platform reports no surface format.
    NoFormat,
    /// The platform reports no present mode.
    NoPresentMode,
}

/// The format every surface prefers.
pub open spec fn preferred_format() -> SurfaceFormat {
    SurfaceFormat { format: FORMAT_B8G8R8A8_UNORM, color_space: COLOR_SPACE_SRGB_NONLINEAR }
}

/// The present mode asked for: with vertical sync images queue up, without
/// it they are shown at once.
pub open spec fn preferred_present_mode(vsync: bool) -> PresentMode {
    if vsync {
        PresentMode::Fifo
    } else {
        PresentMode::Immediate
    }
}

/// `value` brought into `[low, high]`; the lower bound wins where the two cross.
pub open spec fn clamp(value: u32, low: u32, high: u32) -> u32 {
    if value < low {
        low
    } else if value > high && high >= low {
        high
    } else if value > high {
        low
    } else {
        value
    }
}

/// The requested extent brought inside the platform's limits.
pub open spec fn clamped_extent(capabilities: SurfaceCapabilities, requested: Extent) -> Extent {
    Extent {
        width: clamp(
            requested.width,
            capabilities.min_image_extent.width,
            capabilities.max_image_extent.width,
        ),
        height: clamp(
            requested.height,
            capabilities.min_image_extent.height,
            capabilities.max_image_extent.height,
        ),
    }
}

/// One image more than the platform's minimum, held under its maximum where it has one.
pub open spec fn ideal_image_count(capabilities: SurfaceCapabilities) -> u32 {
    let wanted: u32 = if capabilities.min_image_count == u32::MAX {
        u32::MAX
    } else {
        (capabilities.min_image_count + 1) as u32
    };
    if capabilities.max_image_count > 0 && wanted > capabilities.max_image_count {
        capabilities.max_image_count
    } else {
        wanted
    }
}

/// The preferred entry where the platform lists it, else the first it lists.
pub open spec fn ideal_format(formats: Seq<SurfaceFormat>) -> SurfaceFormat
    recommends
        formats.len() > 0,
{
    if formats.contains(preferred_format()) {
        preferred_format()
    } else {
        formats[0]
    }
}

/// The preferred mode where the platform lists it, else the first it lists.
pub open spec fn ideal_present_mode(modes: Seq<PresentMode>, vsync: bool) -> PresentMode
    recommends
        modes.len() > 0,
{
    if modes.contains(preferred_present_mode(vsync)) {
        preferred_present_mode(vsync)
    } else {
        modes[0]
    }
}

/// The properties of the surface to create for a requested extent, or the
/// reason why there is none.
pub open spec fn ideal_properties(
    capabilities: SurfaceCapabilities,
    formats: Seq<SurfaceFormat>,
    modes: Seq<PresentMode>,
    requested: Extent,
    vsync: bool,
) -> Result<SwapchainProperties, SurfaceError> {
    if requested.is_empty() || clamped_extent(capabilities, requested).is_empty() {
        Err(SurfaceError::ZeroArea)
    } else if formats.len() == 0 {
        Err(SurfaceError::NoFormat)
    } else if modes.len() == 0 {
        Err(SurfaceError::NoPresentMode)
    } else {
        Ok(
            SwapchainProperties {
                format: ideal_format(formats),
                present_mode: ideal_present_mode(modes, vsync),
                extent: clamped_extent(capabilities, requested),
                image_count: ideal_image_count(capabilities),
            },
        )
    }
}

/// Brings `value` into `[low, high]`.
pub fn clamp_dimension(value: u32, low: u32, high: u32) -> (r: u32)
    ensures
        r == clamp(value, low, high),
        low <= high ==> low <= r <= high,
{
    if value < low {
        low
    } else if value > high {
        if high >= low {
            high
        } else {
            low
        }
    } else {
        value
    }
}

impl SwapchainSupportDetails {
    /// The properties that `get_ideal_swapchain_properties` selects.
    pub open spec fn ideal(&self, requested: Extent, vsync: bool) -> Result<
        SwapchainProperties,
        SurfaceError,
    > {
        ideal_properties(self.capabilities, self.formats@, self.present_modes@, requested, vsync)
    }

    /// Selects the surface format.
    pub fn choose_swapchain_surface_format(&self) -> (r: SurfaceFormat)
        requires
            self.formats@.len() > 0,
        ensures
            r == ideal_format(self.formats@),
            self.formats@.contains(r),
    {
        let wanted = SurfaceFormat {
            format: FORMAT_B8G8R8A8_UNORM,
            color_space: COLOR_SPACE_SRGB_NONLINEAR,
        };
        let mut i: usize = 0;
        while i < self.formats.len()
            invariant
                i <= self.formats@.len(),
                wanted == preferred_format(),
                forall|j: int| 0 <= j < i ==> self.formats@[j] != wanted,
            decreases self.formats@.len() - i,
        {
            if self.formats[i] == wanted {
                return wanted;
            }
            i += 1;
        }
        self.formats[0]
    }

    /// Selects the present mode.
    pub fn choose_swapchain_surface_present_mode(&self, vsync: bool) -> (r: PresentMode)
        requires
            self.present_modes@.len() > 0,
        ensures
            r == ideal_present_mode(self.present_modes@, vsync),
            self.present_modes@.contains(r),
    {
        let wanted = if vsync {
            PresentMode::Fifo
        } else {
            PresentMode::Immediate
        };
        let mut i: usize = 0;
        while i < self.present_modes.len()
            invariant
                i <= self.present_modes@.len(),
                wanted == preferred_present_mode(vsync),
                forall|j: int| 0 <= j < i ==> self.present_modes@[j] != wanted,
            decreases self.present_modes@.len() - i,
        {
            if self.present_modes[i] == wanted {
                return wanted;
            }
            i += 1;
        }
        self.present_modes[0]
    }

    /// Selects the number of images.
    pub fn choose_image_count(&self) -> (r: u32)
        ensures
            r == ideal_image_count(self.capabilities),
    {
        let wanted: u32 = if self.capabilities.min_image_count == u32::MAX {
            u32::MAX
        } else {
            self.capabilities.min_image_count + 1
        };
        if self.capabilities.max_image_count > 0 && wanted > self.capabilities.max_image_count {
            self.capabilities.max_image_count
        } else {
            wanted
        }
    }

    /// Selects the extent: the request brought inside the platform's limits.
    pub fn choose_swapchain_extent(&self, requested: Extent) -> (r: Extent)
        ensures
            r == clamped_extent(self.capabilities, requested),
    {
        Extent {
            width: clamp_dimension(
                requested.width,
                self.capabilities.min_image_extent.width,
                self.capabilities.max_image_extent.width,
            ),
            height: clamp_dimension(
                requested.height,
                self.capabilities.min_image_extent.height,
                self.capabilities.max_image_extent.height,
            ),
        }
    }

    /// Selects format, present mode, extent and image count for a surface of
    /// the requested extent. A request that covers no pixel is rejected, and
    /// so is one of which the platform's limits leave nothing.
    pub fn get_ideal_swapchain_properties(&self, requested: Extent, vsync: bool) -> (r: Result<
        SwapchainProperties,
        SurfaceError,
    >)
        ensures
            r == self.ideal(requested, vsync),
            r is Ok ==> !r->Ok_0.extent.is_empty(),
    {
        if requested.has_zero_area() {
            return Err(SurfaceError::ZeroArea);
        }
        let extent = self.choose_swapchain_extent(requested);
        if extent.has_zero_area() {
            return Err(SurfaceError::ZeroArea);
        }
        if self.formats.len() == 0 {
            return Err(SurfaceError::NoFormat);
        }
        if self.present_modes.len() == 0 {
            return Err(SurfaceError::NoPresentMode);
        }
        Ok(
            SwapchainProperties {
                format: self.choose_swapchain_surface_format(),
                present_mode: self.choose_swapchain_surface_present_mode(vsync),
                extent,
                image_count: self.choose_image_count(),
            },
        )
    }
}

/// Code of the 32-bit depth format.
pub const FORMAT_D32_SFLOAT: i32 = 126;

/// Code of the 32-bit depth format with an 8-bit stencil.
pub const FORMAT_D32_SFLOAT_S8_UINT: i32 = 130;

/// Code of the 24-bit depth format with an 8-bit stencil.
pub const FORMAT_D24_UNORM_S8_UINT: i32 = 129;

/// The depth format to use: the first of the three candidates, widest
/// first, that the device supports as a depth attachment.
pub open spec fn depth_format(supported: Seq<i32>) -> Option<i32> {
    if supported.contains(FORMAT_D32_SFLOAT) {
        Some(FORMAT_D32_SFLOAT)
    } else if supported.contains(FORMAT_D32_SFLOAT_S8_UINT) {
        Some(FORMAT_D32_SFLOAT_S8_UINT)
    } else if supported.contains(FORMAT_D24_UNORM_S8_UINT) {
        Some(FORMAT_D24_UNORM_S8_UINT)
    } else {
        None
    }
}

/// Whether a format code is in the list.
pub fn lists_format(formats: &Vec<i32>, format: i32) -> (r: bool)
    ensures
        r == formats@.contains(format),
{
    let mut i: usize = 0;
    while i < formats.len()
        invariant
            i <= formats@.len(),
            forall|j: int| 0 <= j < i ==> formats@[j] != format,
        decreases formats@.len() - i,
    {
        if formats[i] == format {
            return true;
        }
        i += 1;
    }
    false
}

/// Picks the depth format among those that the device supports as a depth
/// attachment; `None` where it supports none of the candidates.
pub fn find_depth_format(supported: &Vec<i32>) -> (r: Option<i32>)
    ensures
        r == depth_format(supported@),
{
    if lists_format(supported, FORMAT_D32_SFLOAT) {
        Some(FORMAT_D32_SFLOAT)
    } else if lists_format(supported, FORMAT_D32_SFLOAT_S8_UINT) {
        Some(FORMAT_D32_SFLOAT_S8_UINT)
    } else if lists_format(supported, FORMAT_D24_UNORM_S8_UINT) {
        Some(FORMAT_D24_UNORM_S8_UINT)
    } else {
        None
    }
}

/// Rebuilding with the extent that the last selection gave selects the same
/// properties again: a resize to the current size changes nothing.
pub proof fn lemma_same_geometry_same_properties(
    capabilities: SurfaceCapabilities,
    formats: Seq<SurfaceFormat>,
    modes: Seq<PresentMode>,
    requested: Extent,
    vsync: bool,
)
    requires
        ideal_properties(capabilities, formats, modes, requested, vsync) is Ok,
    ensures
        ideal_properties(
            capabilities,
            formats,
            modes,
            ideal_properties(capabilities, formats, modes, requested, vsync)->Ok_0.extent,
            vsync,
        ) == ideal_properties(capabilities, formats, modes, requested, vsync),
{
}

/// Image count, format and present mode do not depend on the geometry: two
/// surfaces created against the same platform report agree on them.
pub proof fn lemma_geometry_leaves_image_count_and_format(
    capabilities: SurfaceCapabilities,
    formats: Seq<SurfaceFormat>,
    modes: Seq<PresentMode>,
    first: Extent,
    second: Extent,
    vsync: bool,
)
    requires
        ideal_properties(capabilities, formats, modes, first, vsync) is Ok,
        ideal_properties(capabilities, formats, modes, second, vsync) is Ok,
    ensures
        ideal_properties(capabilities, formats, modes, first, vsync)->Ok_0.image_count
            == ideal_properties(capabilities, formats, modes, second, vsync)->Ok_0.image_count,
        ideal_properties(capabilities, formats, modes, first, vsync)->Ok_0.format
            == ideal_properties(capabilities, formats, modes, second, vsync)->Ok_0.format,
        ideal_properties(capabilities, formats, modes, first, vsync)->Ok_0.present_mode
            == ideal_properties(capabilities, formats, modes, second, vsync)->Ok_0.present_mode,
{
}

} // verus!
