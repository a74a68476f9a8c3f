//! The policy by which a swapchain is laid out: its extent, its format, its
//! present mode, the number of its images and how queues share them.

use vstd::prelude::*;
use crate::error::SuitabilityError;
use crate::frame_ring::RebuildStep;

verus! {

/// A size in pixels.
#[derive(Clone, Copy, Debug, PartialEq, Eq, Structural)]
pub struct Extent {
    pub width: u32,
    pub height: u32,
}

/// The width and height by which a surface says that it has no extent of
/// its own and takes the one asked for.
pub const UNDEFINED_EXTENT: u32 = 0xFFFF_FFFF;

/// A pixel format, by its engine-neutral name.
#[derive(Clone, Copy, Debug, PartialEq, Eq, Structural)]
pub enum PixelFormat {
    Rgba8Unorm,
    Rgba8Srgb,
    Bgra8Unorm,
    Bgra8Srgb,
    Depth32Float,
    /// A format that the engine has no name for, by the backend's number.
    Other(i32),
}

/// A colour space, by its engine-neutral name.
#[derive(Clone, Copy, Debug, PartialEq, Eq, Structural)]
pub enum ColorSpace {
    SrgbNonlinear,
    /// A colour space that the engine has no name for, by the backend's
    /// number.
    Other(i32),
}

/// A format that a surface offers.
#[derive(Clone, Copy, Debug, PartialEq, Eq, Structural)]
pub struct SurfaceFormat {
    pub format: PixelFormat,
    pub color_space: ColorSpace,
}

/// How images reach the display.
#[derive(Clone, Copy, Debug, PartialEq, Eq, Structural)]
pub enum PresentMode {
    Immediate,
    /// The low-latency mode: the newest image replaces one that waits.
    Mailbox,
    /// The mode that every surface has: images queue up.
    Fifo,
    FifoRelaxed,
    /// A mode that the engine has no name for, by the backend's number.
    Other(i32),
}

/// How the swapchain's images are shared between queue families.
#[derive(Clone, Copy, Debug, PartialEq, Eq, Structural)]
pub enum SharingMode {
    /// One family owns the images.
    Exclusive,
    /// The graphics and the present family, which differ, both use them.
    Concurrent { graphics_family: u32, present_family: u32 },
}

/// What a surface can do, as the backend reports it.
#[derive(Clone, Copy, Debug, PartialEq, Eq, Structural)]
pub struct SurfaceCapabilities {
    /// The fewest images that a swapchain must have.
    pub min_image_count: u32,
    /// The most images that a swapchain may have; zero for no limit.
    pub max_image_count: u32,
    /// The surface's own extent, or `UNDEFINED_EXTENT` on both axes.
    pub current_extent: Extent,
    pub min_image_extent: Extent,
    pub max_image_extent: Extent,
}

/// The format that is preferred where a surface offers it: 8-bit BGRA in
/// sRGB encoding, in the sRGB colour space.
pub open spec fn preferred_format() -> SurfaceFormat {
    SurfaceFormat { format: PixelFormat::Bgra8Srgb, color_space: ColorSpace::SrgbNonlinear }
}

/// `value` held between `low` and `high`: raised to `low` where it lies
/// below, else lowered to `high` where it lies above.
pub open spec fn clamped(value: u32, low: u32, high: u32) -> u32 {
    if value < low {
        low
    } else if value > high {
        high
    } else {
        value
    }
}

/// The extent that a swapchain takes: the surface's own where it has one,
/// else the extent asked for, held on each axis within the surface's
/// limits.
pub open spec fn chosen_extent(requested: Extent, capabilities: SurfaceCapabilities) -> Extent {
    if capabilities.current_extent.width != UNDEFINED_EXTENT
        || capabilities.current_extent.height != UNDEFINED_EXTENT {
        capabilities.current_extent
    } else {
        Extent {
            width: clamped(
                requested.width,
                capabilities.min_image_extent.width,
                capabilities.max_image_extent.width,
            ),
            height: clamped(
                requested.height,
                capabilities.min_image_extent.height,
                capabilities.max_image_extent.height,
            ),
        }
    }
}

/// The number of images that a swapchain asks for: one more than the
/// fewest, so that rendering need not wait for the display, but no more
/// than the most where there is a limit, and no more than a `u32` counts.
pub open spec fn chosen_image_count(capabilities: SurfaceCapabilities) -> u32 {
    let wanted = capabilities.min_image_count as int + 1;
    if capabilities.max_image_count > 0 && wanted > capabilities.max_image_count {
        capabilities.max_image_count
    } else if wanted > u32::MAX {
        u32::MAX
    } else {
        wanted as u32
    }
}

/// Where the surface leaves the extent open and its limits are in order,
/// the chosen extent lies within the limits on each axis, and it is the
/// extent asked for wherever that lies within them.
pub proof fn lemma_chosen_extent_within_limits(requested: Extent, capabilities: SurfaceCapabilities)
    requires
        capabilities.current_extent.width == UNDEFINED_EXTENT,
        capabilities.current_extent.height == UNDEFINED_EXTENT,
        capabilities.min_image_extent.width <= capabilities.max_image_extent.width,
        capabilities.min_image_extent.height <= capabilities.max_image_extent.height,
    ensures
        capabilities.min_image_extent.width <= chosen_extent(requested, capabilities).width
            <= capabilities.max_image_extent.width,
        capabilities.min_image_extent.height <= chosen_extent(requested, capabilities).height
            <= capabilities.max_image_extent.height,
        capabilities.min_image_extent.width <= requested.width
            <= capabilities.max_image_extent.width ==> chosen_extent(
            requested,
            capabilities,
        ).width == requested.width,
        capabilities.min_image_extent.height <= requested.height
            <= capabilities.max_image_extent.height ==> chosen_extent(
            requested,
            capabilities,
        ).height == requested.height,
{
}

/// The chosen number of images is never below the fewest that the surface
/// needs, unless the surface's own limit lies below it, and never above
/// the most where there is a limit.
pub proof fn lemma_chosen_image_count_within_limits(capabilities: SurfaceCapabilities)
    ensures
        capabilities.max_image_count > 0 ==> chosen_image_count(capabilities)
            <= capabilities.max_image_count,
        capabilities.max_image_count == 0 || capabilities.min_image_count
            <= capabilities.max_image_count ==> capabilities.min_image_count
            <= chosen_image_count(capabilities),
{
}

/// `value` held between `low` and `high`.
pub fn clamp(value: u32, low: u32, high: u32) -> (held: u32)
    ensures
        held == clamped(value, low, high),
        low <= high ==> low <= held <= high,
{
    if value < low {
        low
    } else if value > high {
        high
    } else {
        value
    }
}

/// Chooses the swapchain's extent.
pub fn choose_extent(width: u32, height: u32, capabilities: &SurfaceCapabilities) -> (extent:
    Extent)
    ensures
        extent == chosen_extent(Extent { width, height }, *capabilities),
{
    if capabilities.current_extent.width != UNDEFINED_EXTENT
        || capabilities.current_extent.height != UNDEFINED_EXTENT {
        return capabilities.current_extent;
    }
    Extent {
        width: clamp(
            width,
            capabilities.min_image_extent.width,
            capabilities.max_image_extent.width,
        ),
        height: clamp(
            height,
            capabilities.min_image_extent.height,
            capabilities.max_image_extent.height,
        ),
    }
}

/// Chooses the surface format: the preferred one where the surface offers
/// it, else the first that it offers. A surface that offers none is not
/// suitable.
pub fn choose_surface_format(formats: &Vec<SurfaceFormat>) -> (result: Result<
    SurfaceFormat,
    SuitabilityError,
>)
    ensures
        result == if formats@.len() == 0 {
            Err::<SurfaceFormat, SuitabilityError>(SuitabilityError::NoSurfaceFormat)
        } else if formats@.contains(preferred_format()) {
            Ok::<SurfaceFormat, SuitabilityError>(preferred_format())
        } else {
            Ok::<SurfaceFormat, SuitabilityError>(formats@[0])
        },
{
    if formats.len() == 0 {
        return Err(SuitabilityError::NoSurfaceFormat);
    }
    let mut i: usize = 0;
    while i < formats.len()
        invariant
            i <= formats@.len(),
            forall|j: int| 0 <= j < i ==> formats@[j] != preferred_format(),
        decreases formats@.len() - i,
    {
        let format = formats[i];
        if format.format == PixelFormat::Bgra8Srgb && format.color_space
            == ColorSpace::SrgbNonlinear {
            return Ok(format);
        }
        i += 1;
    }
    Ok(formats[0])
}

/// Chooses the present mode: the low-latency mode where the surface offers
/// it, else the mode that every surface has.
pub fn choose_present_mode(present_modes: &Vec<PresentMode>) -> (mode: PresentMode)
    ensures
        mode == if present_modes@.contains(PresentMode::Mailbox) {
            PresentMode::Mailbox
        } else {
            PresentMode::Fifo
        },
{
    let mut i: usize = 0;
    while i < present_modes.len()
        invariant
            i <= present_modes@.len(),
            forall|j: int| 0 <= j < i ==> present_modes@[j] != PresentMode::Mailbox,
        decreases present_modes@.len() - i,
    {
        if present_modes[i] == PresentMode::Mailbox {
            return PresentMode::Mailbox;
        }
        i += 1;
    }
    PresentMode::Fifo
}

/// Chooses the number of images.
pub fn choose_image_count(capabilities: &SurfaceCapabilities) -> (count: u32)
    ensures
        count == chosen_image_count(*capabilities),
{
    let wanted = capabilities.min_image_count.saturating_add(1);
    if capabilities.max_image_count > 0 && (wanted > capabilities.max_image_count
        || capabilities.min_image_count >= capabilities.max_image_count) {
        capabilities.max_image_count
    } else {
        wanted
    }
}

/// Chooses how the images are shared: by both families where graphics and
/// presentation are served by different ones, else by the one alone.
pub fn choose_sharing_mode(graphics_family: u32, present_family: u32) -> (mode: SharingMode)
    ensures
        mode == if graphics_family != present_family {
            (SharingMode::Concurrent { graphics_family, present_family })
        } else {
            SharingMode::Exclusive
        },
{
    if graphics_family != present_family {
        SharingMode::Concurrent { graphics_family, present_family }
    } else {
        SharingMode::Exclusive
    }
}

/// How a swapchain is to be created.
#[derive(Clone, Copy, Debug, PartialEq, Eq, Structural)]
pub struct SwapchainPlan {
    pub extent: Extent,
    pub format: SurfaceFormat,
    pub present_mode: PresentMode,
    pub image_count: u32,
    pub sharing: SharingMode,
}

/// The format that is chosen of `formats`, which is not empty.
pub open spec fn chosen_format(formats: Seq<SurfaceFormat>) -> SurfaceFormat {
    if formats.contains(preferred_format()) {
        preferred_format()
    } else {
        formats[0]
    }
}

/// The present mode that is chosen of `present_modes`.
pub open spec fn chosen_present_mode(present_modes: Seq<PresentMode>) -> PresentMode {
    if present_modes.contains(PresentMode::Mailbox) {
        PresentMode::Mailbox
    } else {
        PresentMode::Fifo
    }
}

/// The sharing that is chosen for two queue families.
pub open spec fn chosen_sharing(graphics_family: u32, present_family: u32) -> SharingMode {
    if graphics_family != present_family {
        SharingMode::Concurrent { graphics_family, present_family }
    } else {
        SharingMode::Exclusive
    }
}

/// The layout of the swapchain for a surface: the choices of extent,
/// format, present mode, image count and sharing, together; none for a
/// surface without formats.
pub open spec fn planned_swapchain(
    requested: Extent,
    capabilities: SurfaceCapabilities,
    formats: Seq<SurfaceFormat>,
    present_modes: Seq<PresentMode>,
    graphics_family: u32,
    present_family: u32,
) -> Result<SwapchainPlan, SuitabilityError> {
    if formats.len() == 0 {
        Err(SuitabilityError::NoSurfaceFormat)
    } else {
        Ok(
            SwapchainPlan {
                extent: chosen_extent(requested, capabilities),
                format: chosen_format(formats),
                present_mode: chosen_present_mode(present_modes),
                image_count: chosen_image_count(capabilities),
                sharing: chosen_sharing(graphics_family, present_family),
            },
        )
    }
}

/// Lays out the swapchain for a surface: the choices of extent, format,
/// present mode, image count and sharing, together. The same policy serves
/// the first creation and every rebuild. A surface without formats is not
/// suitable.
pub fn plan_swapchain(
    width: u32,
    height: u32,
    capabilities: &SurfaceCapabilities,
    formats: &Vec<SurfaceFormat>,
    present_modes: &Vec<PresentMode>,
    graphics_family: u32,
    present_family: u32,
) -> (result: Result<SwapchainPlan, SuitabilityError>)
    ensures
        result == planned_swapchain(
            Extent { width, height },
            *capabilities,
            formats@,
            present_modes@,
            graphics_family,
            present_family,
        ),
{
    let format = match choose_surface_format(formats) {
        Ok(format) => format,
        Err(error) => {
            return Err(error);
        },
    };
    Ok(
        SwapchainPlan {
            extent: choose_extent(width, height, capabilities),
            format,
            present_mode: choose_present_mode(present_modes),
            image_count: choose_image_count(capabilities),
            sharing: choose_sharing_mode(graphics_family, present_family),
        },
    )
}

/// Why a surface refused.
#[derive(Clone, Copy, Debug, PartialEq, Eq, Structural)]
pub enum SurfaceError {
    /// A swapchain has at least one texture.
    NoTextures,
    /// The texture index lies beyond the swapchain's textures.
    NoSuchTexture { index: u32, count: u32 },
    /// A submitted frame may still read the old textures: the timeline must
    /// reach this frame first.
    InUse { frame: u64 },
}

/// The surface as its users see it.
pub struct SurfaceView {
    /// The size asked for, which the next rebuild takes up.
    pub width: u32,
    pub height: u32,
    /// Whether the size asked for changed since the swapchain was built.
    pub resized: bool,
    /// The size of the swapchain's textures.
    pub extent: Extent,
    /// The number of the swapchain's textures.
    pub texture_count: u32,
    /// The texture that the frame in progress renders to.
    pub current_texture_index: u32,
}

/// A window's surface with its swapchain: the size asked for, and the
/// textures that the present engine provided, which stay as many and as
/// large as they are until the next rebuild.
pub struct Surface {
    width: u32,
    height: u32,
    resized: bool,
    extent: Extent,
    texture_count: u32,
    current_texture_index: u32,
}

impl View for Surface {
    type V = SurfaceView;

    closed spec fn view(&self) -> SurfaceView {
        SurfaceView {
            width: self.width,
            height: self.height,
            resized: self.resized,
            extent: self.extent,
            texture_count: self.texture_count,
            current_texture_index: self.current_texture_index,
        }
    }
}

impl Surface {
    #[verifier::type_invariant]
    closed spec fn well_formed(self) -> bool {
        self.current_texture_index < self.texture_count
    }

    /// The surface of a window of `width` by `height` whose swapchain was
    /// built with `texture_count` textures of extent `extent`.
    pub fn new(width: u32, height: u32, extent: Extent, texture_count: u32) -> (result: Result<
        Surface,
        SurfaceError,
    >)
        ensures
            match result {
                Ok(surface) => texture_count > 0 && surface@ == (SurfaceView {
                    width,
                    height,
                    resized: false,
                    extent,
                    texture_count,
                    current_texture_index: 0,
                }),
                Err(error) => texture_count == 0 && error == SurfaceError::NoTextures,
            },
    {
        if texture_count == 0 {
            return Err(SurfaceError::NoTextures);
        }
        Ok(
            Surface {
                width,
                height,
                resized: false,
                extent,
                texture_count,
                current_texture_index: 0,
            },
        )
    }

    /// Takes note of a new size. The swapchain stays as it is until it is
    /// rebuilt; that a rebuild is due shows in `resized`.
    pub fn resize(&mut self, width: u32, height: u32)
        ensures
            final(self)@ == (SurfaceView { width, height, resized: true, ..old(self)@ }),
    {
        proof {
            use_type_invariant(&*self);
        }
        self.width = width;
        self.height = height;
        self.resized = true;
    }

    /// Lays out the swapchain that a rebuild creates: by the policy of every
    /// creation, for the size that was asked for last.
    pub fn plan_rebuild(
        &self,
        capabilities: &SurfaceCapabilities,
        formats: &Vec<SurfaceFormat>,
        present_modes: &Vec<PresentMode>,
        graphics_family: u32,
        present_family: u32,
    ) -> (result: Result<SwapchainPlan, SuitabilityError>)
        ensures
            result == planned_swapchain(
                Extent { width: self@.width, height: self@.height },
                *capabilities,
                formats@,
                present_modes@,
                graphics_family,
                present_family,
            ),
            result matches Ok(plan) ==> plan.extent == chosen_extent(
                Extent { width: self@.width, height: self@.height },
                *capabilities,
            ),
    {
        plan_swapchain(
            self.width,
            self.height,
            capabilities,
            formats,
            present_modes,
            graphics_family,
            present_family,
        )
    }

    /// Takes up a swapchain that was rebuilt with `texture_count` textures
    /// of extent `extent`. `permission` is what the ring of frames answered
    /// to the request to rebuild: while a frame may still read the old
    /// textures the rebuild is refused and nothing changes.
    pub fn rebuild(&mut self, permission: RebuildStep, extent: Extent, texture_count: u32) -> (result:
        Result<(), SurfaceError>)
        ensures
            match result {
                Ok(()) => {
                    &&& permission == RebuildStep::Proceed
                    &&& texture_count > 0
                    &&& final(self)@ == (SurfaceView {
                        resized: false,
                        extent,
                        texture_count,
                        current_texture_index: 0,
                        ..old(self)@
                    })
                },
                Err(error) => {
                    &&& final(self)@ == old(self)@
                    &&& error == match permission {
                        RebuildStep::Wait { frame } => SurfaceError::InUse { frame },
                        RebuildStep::Proceed => SurfaceError::NoTextures,
                    }
                    &&& (permission != RebuildStep::Proceed || texture_count == 0)
                },
            },
    {
        proof {
            use_type_invariant(&*self);
        }
        match permission {
            RebuildStep::Wait { frame } => Err(SurfaceError::InUse { frame }),
            RebuildStep::Proceed => {
                if texture_count == 0 {
                    return Err(SurfaceError::NoTextures);
                }
                self.current_texture_index = 0;
                self.texture_count = texture_count;
                self.extent = extent;
                self.resized = false;
                Ok(())
            },
        }
    }

    /// Makes `texture_index` the texture that the frame renders to. An
    /// index beyond the swapchain's textures is refused.
    pub fn set_current_texture_index(&mut self, texture_index: u32) -> (result: Result<
        (),
        SurfaceError,
    >)
        ensures
            match result {
                Ok(()) => texture_index < old(self)@.texture_count && final(self)@ == (SurfaceView {
                    current_texture_index: texture_index,
                    ..old(self)@
                }),
                Err(error) => {
                    &&& texture_index >= old(self)@.texture_count
                    &&& final(self)@ == old(self)@
                    &&& error == SurfaceError::NoSuchTexture {
                        index: texture_index,
                        count: old(self)@.texture_count,
                    }
                },
            },
    {
        proof {
            use_type_invariant(&*self);
        }
        if texture_index >= self.texture_count {
            return Err(SurfaceError::NoSuchTexture {
                index: texture_index,
                count: self.texture_count,
            });
        }
        self.current_texture_index = texture_index;
        Ok(())
    }

    /// The texture that the frame renders to: always one of the
    /// swapchain's.
    pub fn current_texture_index(&self) -> (index: u32)
        ensures
            index == self@.current_texture_index,
            index < self@.texture_count,
    {
        proof {
            use_type_invariant(self);
        }
        self.current_texture_index
    }

    /// The number of the swapchain's textures.
    pub fn texture_count(&self) -> (count: u32)
        ensures
            count == self@.texture_count,
            count > 0,
    {
        proof {
            use_type_invariant(self);
        }
        self.texture_count
    }

    /// The size of the swapchain's textures.
    pub fn extent(&self) -> (extent: Extent)
        ensures
            extent == self@.extent,
    {
        self.extent
    }

    /// Whether the size asked for changed since the swapchain was built.
    pub fn resized(&self) -> (resized: bool)
        ensures
            resized == self@.resized,
    {
        self.resized
    }

    /// The width asked for.
    pub fn width(&self) -> (width: u32)
        ensures
            width == self@.width,
    {
        self.width
    }

    /// The height asked for.
    pub fn height(&self) -> (height: u32)
        ensures
            height == self@.height,
    {
        self.height
    }
}

} // verus!
