//! Presentation surface configuration: how the swap chain's format, present
//! mode, extent and image count are chosen from what the device reports.
use vstd::prelude::*;

verus! {

/// Raw value of the preferred pixel format, `B8G8R8A8_SRGB`.
pub const FORMAT_B8G8R8A8_SRGB: i32 = 50;

/// Raw value of the preferred color space, `SRGB_NONLINEAR`.
pub const COLOR_SPACE_SRGB_NONLINEAR: i32 = 0;

/// Raw value of the low-latency, triple-buffering present mode.
pub const PRESENT_MODE_MAILBOX: i32 = 1;

/// Raw value of the first-in first-out present mode, always available.
pub const PRESENT_MODE_FIFO: i32 = 2;

/// Width reported as the current extent when the surface leaves the extent
/// to the swap chain.
pub const UNCONSTRAINED_EXTENT: u32 = 0xFFFF_FFFF;

/// A width and a height in pixels.
#[derive(Clone, Copy, Debug, PartialEq, Eq, Structural)]
pub struct Extent {
    pub width: u32,
    pub height: u32,
}

/// The part of a surface's capabilities that configuration reads.
#[derive(Clone, Copy, Debug, PartialEq, Eq, Structural)]
pub struct SurfaceCapabilities {
    pub min_image_count: u32,
    /// Zero when the number of images is unbounded.
    pub max_image_count: u32,
    pub current_extent: Extent,
    pub min_image_extent: Extent,
    pub max_image_extent: Extent,
}

/// A pixel format together with its color space, as raw values.
#[derive(Clone, Copy, Debug, PartialEq, Eq, Structural)]
pub struct SurfaceFormat {
    pub format: i32,
    pub color_space: i32,
}

/// Everything that swap-chain creation needs to be told.
#[derive(Clone, Copy, Debug, PartialEq, Eq, Structural)]
pub struct SwapchainPlan {
    pub format: SurfaceFormat,
    pub present_mode: i32,
    pub extent: Extent,
    pub image_count: u32,
}

/// What is needed to create the view of one presentation image: a 2D color
/// view with identity channel mapping, one mip level and one array layer.
#[derive(Clone, Copy, Debug, PartialEq, Eq, Structural)]
pub struct ImageViewDesc {
    pub image: u64,
    pub format: i32,
}

impl SurfaceCapabilities {
    /// The reported extent bounds are ordered in both dimensions.
    pub open spec fn bounds_ordered(&self) -> bool {
        &&& self.min_image_extent.width <= self.max_image_extent.width
        &&& self.min_image_extent.height <= self.max_image_extent.height
    }

    /// The device reports the unconstrained-extent sentinel.
    pub open spec fn unconstrained(&self) -> bool {
        self.current_extent.width == UNCONSTRAINED_EXTENT
    }

    /// `e` lies within the reported extent bounds.
    pub open spec fn within_bounds(&self, e: Extent) -> bool {
        &&& self.min_image_extent.width <= e.width <= self.max_image_extent.width
        &&& self.min_image_extent.height <= e.height <= self.max_image_extent.height
    }

    /// The capabilities can be planned for: ordered bounds, and a minimum
    /// image count to which one can be added.
    pub open spec fn plannable(&self) -> bool {
        self.bounds_ordered() && self.min_image_count < u32::MAX
    }
}

pub open spec fn clamp_spec(v: int, lo: int, hi: int) -> int {
    if v < lo {
        lo
    } else if v > hi {
        hi
    } else {
        v
    }
}

/// The extent chosen for a window of pixel size `window`.
pub open spec fn chosen_extent(window: Extent, caps: SurfaceCapabilities) -> Extent {
    if caps.unconstrained() {
        caps.current_extent
    } else {
        Extent {
            width: clamp_spec(
                window.width as int,
                caps.min_image_extent.width as int,
                caps.max_image_extent.width as int,
            ) as u32,
            height: clamp_spec(
                window.height as int,
                caps.min_image_extent.height as int,
                caps.max_image_extent.height as int,
            ) as u32,
        }
    }
}

/// One more image than the minimum, but no more than a nonzero maximum.
pub open spec fn requested_image_count(min_count: u32, max_count: u32) -> int {
    if max_count > 0 && min_count + 1 > max_count {
        max_count as int
    } else {
        min_count + 1
    }
}

pub open spec fn is_preferred_format(f: SurfaceFormat) -> bool {
    f.format == FORMAT_B8G8R8A8_SRGB && f.color_space == COLOR_SPACE_SRGB_NONLINEAR
}

pub open spec fn chosen_format(formats: Seq<SurfaceFormat>) -> SurfaceFormat {
    if exists|i: int| 0 <= i < formats.len() && #[trigger] is_preferred_format(formats[i]) {
        SurfaceFormat { format: FORMAT_B8G8R8A8_SRGB, color_space: COLOR_SPACE_SRGB_NONLINEAR }
    } else {
        formats[0]
    }
}

pub open spec fn chosen_present_mode(modes: Seq<i32>) -> i32 {
    if modes.contains(PRESENT_MODE_MAILBOX) {
        PRESENT_MODE_MAILBOX
    } else {
        PRESENT_MODE_FIFO
    }
}

/// Relies on num::clamp: for `lo <= hi` it returns `lo` below the range,
/// `hi` above it and the value itself within it.
#[verifier::external_body]
fn clamp_u32(v: u32, lo: u32, hi: u32) -> (r: u32)
    requires
        lo <= hi,
    ensures
        r == clamp_spec(v as int, lo as int, hi as int),
{
    num::clamp(v, lo, hi)
}

/// Chooses the swap-chain extent: the capability-reported current extent
/// verbatim under the unconstrained sentinel, else the window's pixel size
/// clamped to the reported bounds.
pub fn choose_swap_extent(window: Extent, caps: &SurfaceCapabilities) -> (r: Extent)
    requires
        caps.bounds_ordered(),
    ensures
        r == chosen_extent(window, *caps),
        caps.unconstrained() ==> r == caps.current_extent,
        !caps.unconstrained() ==> caps.within_bounds(r),
{
    if caps.current_extent.width == UNCONSTRAINED_EXTENT {
        caps.current_extent
    } else {
        Extent {
            width: clamp_u32(window.width, caps.min_image_extent.width, caps.max_image_extent.width),
            height: clamp_u32(
                window.height,
                caps.min_image_extent.height,
                caps.max_image_extent.height,
            ),
        }
    }
}

/// The number of images to ask the swap chain for.
pub fn choose_image_count(caps: &SurfaceCapabilities) -> (r: u32)
    requires
        caps.min_image_count < u32::MAX,
    ensures
        r == requested_image_count(caps.min_image_count, caps.max_image_count),
{
    let wanted: u32 = caps.min_image_count + 1;
    if caps.max_image_count > 0 && wanted > caps.max_image_count {
        caps.max_image_count
    } else {
        wanted
    }
}

/// The preferred format and color space if supported, else the first
/// supported format.
pub fn choose_surface_format(formats: &Vec<SurfaceFormat>) -> (r: SurfaceFormat)
    requires
        formats@.len() > 0,
    ensures
        r == chosen_format(formats@),
{
    let mut i: usize = 0;
    while i < formats.len()
        invariant
            i <= formats@.len(),
            forall|j: int| 0 <= j < i ==> !#[trigger] is_preferred_format(formats@[j]),
        decreases formats@.len() - i,
    {
        let f = formats[i];
        if f.format == FORMAT_B8G8R8A8_SRGB && f.color_space == COLOR_SPACE_SRGB_NONLINEAR {
            assert(is_preferred_format(formats@[i as int]));
            return f;
        }
        i = i + 1;
    }
    formats[0]
}

/// The mailbox present mode if supported, else first-in first-out.
pub fn choose_present_mode(modes: &Vec<i32>) -> (r: i32)
    ensures
        r == chosen_present_mode(modes@),
{
    let mut i: usize = 0;
    while i < modes.len()
        invariant
            i <= modes@.len(),
            forall|j: int| 0 <= j < i ==> modes@[j] != PRESENT_MODE_MAILBOX,
        decreases modes@.len() - i,
    {
        if modes[i] == PRESENT_MODE_MAILBOX {
            assert(modes@[i as int] == PRESENT_MODE_MAILBOX);
            return PRESENT_MODE_MAILBOX;
        }
        i = i + 1;
    }
    PRESENT_MODE_FIFO
}

/// Plans a swap chain for a window of pixel size `window` on a surface with
/// the given capabilities, supported formats and present modes.
pub fn plan_swapchain(
    caps: &SurfaceCapabilities,
    formats: &Vec<SurfaceFormat>,
    modes: &Vec<i32>,
    window: Extent,
) -> (r: SwapchainPlan)
    requires
        caps.plannable(),
        formats@.len() > 0,
    ensures
        r.format == chosen_format(formats@),
        r.present_mode == chosen_present_mode(modes@),
        r.extent == chosen_extent(window, *caps),
        r.image_count == requested_image_count(caps.min_image_count, caps.max_image_count),
{
    SwapchainPlan {
        format: choose_surface_format(formats),
        present_mode: choose_present_mode(modes),
        extent: choose_swap_extent(window, caps),
        image_count: choose_image_count(caps),
    }
}

/// One view description per presentation image, in image order.
pub fn image_view_descs(images: &Vec<u64>, format: i32) -> (r: Vec<ImageViewDesc>)
    ensures
        r@.len() == images@.len(),
        forall|i: int|
            0 <= i < images@.len() ==> #[trigger] r@[i] == (ImageViewDesc { image: images@[i], format }),
{
    let mut r: Vec<ImageViewDesc> = Vec::with_capacity(images.len());
    let mut i: usize = 0;
    while i < images.len()
        invariant
            i <= images@.len(),
            r@.len() == i,
            forall|j: int| 0 <= j < i ==> #[trigger] r@[j] == (ImageViewDesc { image: images@[j], format }),
        decreases images@.len() - i,
    {
        r.push(ImageViewDesc { image: images[i], format });
        i = i + 1;
    }
    r
}

/// The extent chosen at creation lies within the reported bounds, or is the
/// reported current extent verbatim under the unconstrained sentinel.
pub proof fn lemma_extent_within_capabilities(window: Extent, caps: SurfaceCapabilities)
    requires
        caps.bounds_ordered(),
    ensures
        caps.unconstrained() ==> chosen_extent(window, caps) == caps.current_extent,
        !caps.unconstrained() ==> caps.within_bounds(chosen_extent(window, caps)),
{
}

} // verus!
