//! The swapchain: choice of surface format, present mode, extent and
//! image count; sharing mode; the render-pass description; and the
//! rebuild performed when the surface goes stale.

use crate::device::Queue_family_indices;
use vstd::prelude::*;

verus! {

/// Format and color-space codes as the driver reports them.
pub const FORMAT_R8G8B8A8_SRGB: u32 = 43;

pub const COLOR_SPACE_SRGB_NONLINEAR: u32 = 0;

/// Present-mode codes as the driver reports them.
pub const PRESENT_MODE_MAILBOX: u32 = 1;

pub const PRESENT_MODE_FIFO: u32 = 2;

/// The sentinel width by which a surface reports that its extent is
/// undefined and the window size decides.
pub const EXTENT_UNDEFINED: u32 = 0xffff_ffff;

/// How many images to ask for beyond the surface's minimum.
pub const IMAGE_EXTENSION: u32 = 2;

/// Attachment operation, layout and sample-count codes as the driver
/// defines them.
pub const ATTACHMENT_LOAD_OP_CLEAR: u32 = 1;

pub const ATTACHMENT_LOAD_OP_DONT_CARE: u32 = 2;

pub const ATTACHMENT_STORE_OP_STORE: u32 = 0;

pub const ATTACHMENT_STORE_OP_DONT_CARE: u32 = 1;

pub const IMAGE_LAYOUT_UNDEFINED: u32 = 0;

pub const IMAGE_LAYOUT_COLOR_ATTACHMENT_OPTIMAL: u32 = 2;

pub const IMAGE_LAYOUT_PRESENT_SRC: u32 = 1000001002;

pub const SAMPLE_COUNT_1: u32 = 1;

/// A pixel extent.
#[derive(Debug, Clone, Copy, PartialEq, Eq, Structural)]
pub struct Extent_2d {
    pub width: u32,
    pub height: u32,
}

/// A surface format: a pixel format together with a color space.
#[derive(Debug, Clone, Copy, PartialEq, Eq, Structural)]
pub struct Surface_format {
    pub format: u32,
    pub color_space: u32,
}

/// What the surface-capabilities query reports: image-count bounds, the
/// current extent (possibly undefined), the allowed extent range, and
/// the current transform, which is passed through to the driver
/// untouched.
#[derive(Debug, Clone, Copy, PartialEq, Eq, Structural)]
pub struct Surface_capabilities {
    pub min_image_count: u32,
    pub max_image_count: u32,
    pub current_extent: Extent_2d,
    pub min_image_extent: Extent_2d,
    pub max_image_extent: Extent_2d,
    pub current_transform: u32,
}

/// Everything the surface queries report for a device: capabilities,
/// supported formats, and supported present modes.
#[derive(Debug, Clone, PartialEq, Eq)]
pub struct Swap_chain_supports {
    pub capabilities: Surface_capabilities,
    pub formats: Vec<Surface_format>,
    pub present_modes: Vec<u32>,
}

/// The preferred format: 8-bit-per-channel sRGB in the nonlinear sRGB
/// color space.
pub open spec fn is_preferred_format(f: Surface_format) -> bool {
    f.format == FORMAT_R8G8B8A8_SRGB && f.color_space == COLOR_SPACE_SRGB_NONLINEAR
}

/// The position of the first preferred format at or after `i`, if any.
pub open spec fn spec_first_preferred(formats: Seq<Surface_format>, i: int) -> Option<int>
    decreases formats.len() - i,
{
    if i < 0 || i >= formats.len() {
        None
    } else if is_preferred_format(formats[i]) {
        Some(i)
    } else {
        spec_first_preferred(formats, i + 1)
    }
}

/// The chosen format: the first preferred entry, else the first entry.
pub open spec fn spec_choose_format(formats: Seq<Surface_format>) -> Surface_format
    recommends
        formats.len() > 0,
{
    match spec_first_preferred(formats, 0) {
        Some(i) => formats[i],
        None => formats[0],
    }
}

/// The chosen present mode: low-latency mailbox when offered, else the
/// always-available FIFO mode.
pub open spec fn spec_choose_present_mode(present_modes: Seq<u32>) -> u32 {
    if present_modes.contains(PRESENT_MODE_MAILBOX) {
        PRESENT_MODE_MAILBOX
    } else {
        PRESENT_MODE_FIFO
    }
}

/// `x` clamped into `[lo, hi]`.
pub open spec fn spec_clamp(x: u32, lo: u32, hi: u32) -> u32
    recommends
        lo <= hi,
{
    if x < lo {
        lo
    } else if x > hi {
        hi
    } else {
        x
    }
}

/// The chosen extent: the surface's current extent, unless the surface
/// reports it undefined, in which case the window size clamped into the
/// allowed range.
pub open spec fn spec_choose_extent(
    capabilities: Surface_capabilities,
    width: u32,
    height: u32,
) -> Extent_2d {
    if capabilities.current_extent.width != EXTENT_UNDEFINED {
        capabilities.current_extent
    } else {
        Extent_2d {
            width: spec_clamp(
                width,
                capabilities.min_image_extent.width,
                capabilities.max_image_extent.width,
            ),
            height: spec_clamp(
                height,
                capabilities.min_image_extent.height,
                capabilities.max_image_extent.height,
            ),
        }
    }
}

/// The image count to request: the surface's minimum plus the extension,
/// capped at the maximum unless the maximum is reported as zero, meaning
/// unlimited.
pub open spec fn spec_image_count(capabilities: Surface_capabilities) -> int {
    let desired = capabilities.min_image_count + IMAGE_EXTENSION;
    if capabilities.max_image_count == 0 {
        desired
    } else if desired <= capabilities.max_image_count {
        desired
    } else {
        capabilities.max_image_count as int
    }
}

/// The preconditions under which the surface queries admit a build:
/// at least one format, an extent range that is an interval when the
/// current extent is undefined, and a minimum image count small enough
/// that the requested count fits.
pub open spec fn spec_supports_ready(supports: Swap_chain_supports) -> bool {
    &&& supports.formats@.len() > 0
    &&& supports.capabilities.current_extent.width == EXTENT_UNDEFINED ==> {
        &&& supports.capabilities.min_image_extent.width
            <= supports.capabilities.max_image_extent.width
        &&& supports.capabilities.min_image_extent.height
            <= supports.capabilities.max_image_extent.height
    }
    &&& supports.capabilities.min_image_count + IMAGE_EXTENSION <= u32::MAX
}

impl Swap_chain_supports {
    /// Whether the queries returned at least one format and one present
    /// mode, as eligibility demands.
    pub fn physical_device_check(&self) -> (r: bool)
        ensures
            r == (self.formats@.len() > 0 && self.present_modes@.len() > 0),
    {
        self.formats.len() > 0 && self.present_modes.len() > 0
    }

    /// Choose the surface format, preferring 8-bit sRGB nonlinear.
    pub fn choose_format(&self) -> (r: Surface_format)
        requires
            self.formats@.len() > 0,
        ensures
            r == spec_choose_format(self.formats@),
    {
        let mut i: usize = 0;
        while i < self.formats.len()
            invariant
                i <= self.formats@.len(),
                spec_first_preferred(self.formats@, 0) == spec_first_preferred(
                    self.formats@,
                    i as int,
                ),
            decreases self.formats@.len() - i,
        {
            let f = self.formats[i];
            if f.format == FORMAT_R8G8B8A8_SRGB && f.color_space == COLOR_SPACE_SRGB_NONLINEAR {
                return f;
            }
            i = i + 1;
        }
        self.formats[0]
    }

    /// Choose the present mode, preferring mailbox over FIFO.
    pub fn choose_present_mode(&self) -> (r: u32)
        ensures
            r == spec_choose_present_mode(self.present_modes@),
    {
        let mut i: usize = 0;
        while i < self.present_modes.len()
            invariant
                i <= self.present_modes@.len(),
                forall|j: int| 0 <= j < i ==> self.present_modes@[j] != PRESENT_MODE_MAILBOX,
            decreases self.present_modes@.len() - i,
        {
            if self.present_modes[i] == PRESENT_MODE_MAILBOX {
                return PRESENT_MODE_MAILBOX;
            }
            i = i + 1;
        }
        proof {
            assert(!self.present_modes@.contains(PRESENT_MODE_MAILBOX));
        }
        PRESENT_MODE_FIFO
    }

    /// Choose the extent from the surface's report and the window size.
    pub fn choose_extent(&self, width: u32, height: u32) -> (r: Extent_2d)
        requires
            self.capabilities.current_extent.width == EXTENT_UNDEFINED ==> {
                &&& self.capabilities.min_image_extent.width
                    <= self.capabilities.max_image_extent.width
                &&& self.capabilities.min_image_extent.height
                    <= self.capabilities.max_image_extent.height
            },
        ensures
            r == spec_choose_extent(self.capabilities, width, height),
    {
        if self.capabilities.current_extent.width != EXTENT_UNDEFINED {
            self.capabilities.current_extent
        } else {
            Extent_2d {
                width: clamp_u32(
                    width,
                    self.capabilities.min_image_extent.width,
                    self.capabilities.max_image_extent.width,
                ),
                height: clamp_u32(
                    height,
                    self.capabilities.min_image_extent.height,
                    self.capabilities.max_image_extent.height,
                ),
            }
        }
    }

    /// The image count to request from the driver.
    pub fn choose_image_count(&self) -> (r: u32)
        requires
            self.capabilities.min_image_count + IMAGE_EXTENSION <= u32::MAX,
        ensures
            r == spec_image_count(self.capabilities),
    {
        let desired = self.capabilities.min_image_count + IMAGE_EXTENSION;
        if self.capabilities.max_image_count == 0 {
            desired
        } else if desired <= self.capabilities.max_image_count {
            desired
        } else {
            self.capabilities.max_image_count
        }
    }
}

/// `x` clamped into `[lo, hi]`.
pub fn clamp_u32(x: u32, lo: u32, hi: u32) -> (r: u32)
    requires
        lo <= hi,
    ensures
        r == spec_clamp(x, lo, hi),
{
    if x < lo {
        lo
    } else if x > hi {
        hi
    } else {
        x
    }
}

/// How swapchain images are shared between queue families.
#[derive(Debug, Clone, Copy, PartialEq, Eq, Structural)]
pub enum Sharing_mode {
    Exclusive,
    Concurrent,
}

/// Concurrent exactly when the graphics and present families differ.
pub open spec fn spec_sharing_mode(indices: Queue_family_indices) -> Sharing_mode {
    if indices.graphics_family == indices.present_family {
        Sharing_mode::Exclusive
    } else {
        Sharing_mode::Concurrent
    }
}

/// Decide how swapchain images are shared: concurrently between the two
/// families exactly when graphics and present families differ, else
/// exclusively.
pub fn choose_sharing_mode(indices: &Queue_family_indices) -> (r: Sharing_mode)
    ensures
        r == spec_sharing_mode(*indices),
        r is Concurrent <==> indices.graphics_family != indices.present_family,
{
    let same = match (&indices.graphics_family, &indices.present_family) {
        (Some(g), Some(p)) => *g == *p,
        (None, None) => true,
        _ => false,
    };
    if same {
        Sharing_mode::Exclusive
    } else {
        Sharing_mode::Concurrent
    }
}

/// The render pass the swapchain draws through: one color attachment in
/// the chosen format, cleared on load and stored on end, carried from an
/// undefined layout to the presentable layout, through one subpass.
#[derive(Debug, Clone, Copy, PartialEq, Eq, Structural)]
pub struct Render_pass_config {
    pub format: u32,
    pub samples: u32,
    pub load_op: u32,
    pub store_op: u32,
    pub stencil_load_op: u32,
    pub stencil_store_op: u32,
    pub initial_layout: u32,
    pub final_layout: u32,
    pub attachment_ref_layout: u32,
    pub attachment_count: u32,
    pub subpass_count: u32,
}

/// The fixed render-pass description for a given image format.
pub open spec fn spec_render_pass_config(format: u32) -> Render_pass_config {
    Render_pass_config {
        format,
        samples: SAMPLE_COUNT_1,
        load_op: ATTACHMENT_LOAD_OP_CLEAR,
        store_op: ATTACHMENT_STORE_OP_STORE,
        stencil_load_op: ATTACHMENT_LOAD_OP_DONT_CARE,
        stencil_store_op: ATTACHMENT_STORE_OP_DONT_CARE,
        initial_layout: IMAGE_LAYOUT_UNDEFINED,
        final_layout: IMAGE_LAYOUT_PRESENT_SRC,
        attachment_ref_layout: IMAGE_LAYOUT_COLOR_ATTACHMENT_OPTIMAL,
        attachment_count: 1,
        subpass_count: 1,
    }
}

/// Per-image derivation: the view reads the image in the chosen format,
/// and the framebuffer binds that view to the render pass at the chosen
/// extent.
#[derive(Debug, Clone, Copy, PartialEq, Eq, Structural)]
pub struct Image_view_config {
    pub image_index: usize,
    pub format: u32,
}

#[derive(Debug, Clone, Copy, PartialEq, Eq, Structural)]
pub struct Framebuffer_config {
    pub image_index: usize,
    pub width: u32,
    pub height: u32,
}

/// The swapchain as the engine reasons about it: the choices it was
/// built from, its render-pass description, and how many images (each
/// with one view and one framebuffer) it currently presents through.
#[derive(Debug, Clone, PartialEq, Eq)]
pub struct Swap_chain {
    pub surface_format: Surface_format,
    pub present_mode: u32,
    pub extent: Extent_2d,
    pub sharing_mode: Sharing_mode,
    pub queue_family_indices: Vec<u32>,
    pub render_pass: Render_pass_config,
    pub image_count: usize,
}

/// The queue-family index list handed to the driver: the two distinct
/// families when images are shared concurrently, else nothing.
pub open spec fn spec_queue_index_seq(indices: Queue_family_indices) -> Seq<u32> {
    if indices.graphics_family == indices.present_family {
        Seq::<u32>::empty()
    } else {
        seq![indices.graphics_family->0, indices.present_family->0]
    }
}

impl Swap_chain {
    /// Everything a (re)build settles, given the surface queries, the
    /// queue families, the window size, how many images the driver
    /// actually produced, and the render pass in use.
    pub open spec fn is_built_from(
        self,
        supports: Swap_chain_supports,
        indices: Queue_family_indices,
        width: u32,
        height: u32,
        image_count: usize,
        render_pass: Render_pass_config,
    ) -> bool {
        &&& self.surface_format == spec_choose_format(supports.formats@)
        &&& self.present_mode == spec_choose_present_mode(supports.present_modes@)
        &&& self.extent == spec_choose_extent(supports.capabilities, width, height)
        &&& self.sharing_mode == spec_sharing_mode(indices)
        &&& self.queue_family_indices@ == spec_queue_index_seq(indices)
        &&& self.render_pass == render_pass
        &&& self.image_count == image_count
    }

    /// Build the swapchain state from the surface queries: choose the
    /// format, present mode and extent, decide the sharing mode and the
    /// render-pass description, and record the image count the driver
    /// produced; the caller derives one view and one framebuffer per
    /// image through `update_images`.
    pub fn new(
        supports: &Swap_chain_supports,
        indices: &Queue_family_indices,
        width: u32,
        height: u32,
        image_count: usize,
    ) -> (r: Swap_chain)
        requires
            spec_supports_ready(*supports),
            indices.graphics_family is Some,
            indices.present_family is Some,
        ensures
            r.is_built_from(
                *supports,
                *indices,
                width,
                height,
                image_count,
                spec_render_pass_config(spec_choose_format(supports.formats@).format),
            ),
    {
        let surface_format = supports.choose_format();
        let render_pass = Self::create_render_pass(surface_format.format);
        let mut result = Swap_chain {
            surface_format,
            present_mode: supports.choose_present_mode(),
            extent: supports.choose_extent(width, height),
            sharing_mode: choose_sharing_mode(indices),
            queue_family_indices: Vec::new(),
            render_pass,
            image_count: 0,
        };
        result.create_swap_chain(supports, indices, width, height, image_count);
        result
    }

    /// The fixed render-pass description for a given image format; the
    /// render pass is built once and survives swapchain rebuilds.
    pub fn create_render_pass(format: u32) -> (r: Render_pass_config)
        ensures
            r == spec_render_pass_config(format),
    {
        Render_pass_config {
            format,
            samples: SAMPLE_COUNT_1,
            load_op: ATTACHMENT_LOAD_OP_CLEAR,
            store_op: ATTACHMENT_STORE_OP_STORE,
            stencil_load_op: ATTACHMENT_LOAD_OP_DONT_CARE,
            stencil_store_op: ATTACHMENT_STORE_OP_DONT_CARE,
            initial_layout: IMAGE_LAYOUT_UNDEFINED,
            final_layout: IMAGE_LAYOUT_PRESENT_SRC,
            attachment_ref_layout: IMAGE_LAYOUT_COLOR_ATTACHMENT_OPTIMAL,
            attachment_count: 1,
            subpass_count: 1,
        }
    }

    /// Settle every field a (re)build decides, except the render pass,
    /// which keeps its current description.
    pub fn create_swap_chain(
        &mut self,
        supports: &Swap_chain_supports,
        indices: &Queue_family_indices,
        width: u32,
        height: u32,
        image_count: usize,
    )
        requires
            spec_supports_ready(*supports),
            indices.graphics_family is Some,
            indices.present_family is Some,
        ensures
            final(self).is_built_from(
                *supports,
                *indices,
                width,
                height,
                image_count,
                old(self).render_pass,
            ),
    {
        self.surface_format = supports.choose_format();
        self.present_mode = supports.choose_present_mode();
        self.extent = supports.choose_extent(width, height);
        let sharing_mode = choose_sharing_mode(indices);
        self.sharing_mode = sharing_mode;
        let share_list: Vec<u32> = if matches!(sharing_mode, Sharing_mode::Concurrent) {
            indices.distinct_indices()
        } else {
            Vec::new()
        };
        self.queue_family_indices = share_list;
        self.update_images(image_count);
    }

    /// Adopt the images the driver produced: one view and one
    /// framebuffer are derived per image, so their counts always match
    /// the image count.
    pub fn update_images(&mut self, image_count: usize) -> (r: (
        Vec<Image_view_config>,
        Vec<Framebuffer_config>,
    ))
        ensures
            final(self).image_count == image_count,
            final(self).surface_format == old(self).surface_format,
            final(self).present_mode == old(self).present_mode,
            final(self).extent == old(self).extent,
            final(self).sharing_mode == old(self).sharing_mode,
            final(self).queue_family_indices == old(self).queue_family_indices,
            final(self).render_pass == old(self).render_pass,
            r.0@.len() == image_count,
            r.1@.len() == image_count,
            forall|i: int|
                0 <= i < image_count ==> (#[trigger] r.0@[i]) == (Image_view_config {
                    image_index: i as usize,
                    format: old(self).surface_format.format,
                }),
            forall|i: int|
                0 <= i < image_count ==> (#[trigger] r.1@[i]) == (Framebuffer_config {
                    image_index: i as usize,
                    width: old(self).extent.width,
                    height: old(self).extent.height,
                }),
    {
        self.image_count = image_count;
        let mut views: Vec<Image_view_config> = Vec::new();
        let mut framebuffers: Vec<Framebuffer_config> = Vec::new();
        let mut i: usize = 0;
        while i < image_count
            invariant
                i <= image_count,
                *self == (Swap_chain { image_count, ..*old(self) }),
                views@.len() == i,
                framebuffers@.len() == i,
                forall|j: int|
                    0 <= j < i ==> (#[trigger] views@[j]) == (Image_view_config {
                        image_index: j as usize,
                        format: old(self).surface_format.format,
                    }),
                forall|j: int|
                    0 <= j < i ==> (#[trigger] framebuffers@[j]) == (Framebuffer_config {
                        image_index: j as usize,
                        width: old(self).extent.width,
                        height: old(self).extent.height,
                    }),
            decreases image_count - i,
        {
            views.push(Image_view_config { image_index: i, format: self.surface_format.format });
            framebuffers.push(
                Framebuffer_config {
                    image_index: i,
                    width: self.extent.width,
                    height: self.extent.height,
                },
            );
            i = i + 1;
        }
        (views, framebuffers)
    }

    /// Rebuild after the surface went stale: repeat every choice against
    /// the fresh surface queries and adopt the new images, keeping the
    /// render pass. The caller must first drain all GPU work.
    pub fn recreate(
        &mut self,
        supports: &Swap_chain_supports,
        indices: &Queue_family_indices,
        width: u32,
        height: u32,
        image_count: usize,
    )
        requires
            spec_supports_ready(*supports),
            indices.graphics_family is Some,
            indices.present_family is Some,
        ensures
            final(self).is_built_from(
                *supports,
                *indices,
                width,
                height,
                image_count,
                old(self).render_pass,
            ),
    {
        self.create_swap_chain(supports, indices, width, height, image_count);
    }
}

/// Law: a rebuild is a function of the surface queries, the queue
/// families, the window size and the driver's image count alone — two
/// rebuilds from an unchanged surface settle on the same format,
/// present mode, extent, sharing and image count.
pub proof fn lemma_recreate_idempotent(
    first: Swap_chain,
    second: Swap_chain,
    supports: Swap_chain_supports,
    indices: Queue_family_indices,
    width: u32,
    height: u32,
    image_count: usize,
    render_pass: Render_pass_config,
)
    requires
        first.is_built_from(supports, indices, width, height, image_count, render_pass),
        second.is_built_from(supports, indices, width, height, image_count, render_pass),
    ensures
        second.surface_format == first.surface_format,
        second.present_mode == first.present_mode,
        second.extent == first.extent,
        second.sharing_mode == first.sharing_mode,
        second.queue_family_indices@ == first.queue_family_indices@,
        second.render_pass == first.render_pass,
        second.image_count == first.image_count,
{
}

/// Law: whenever the format list offers an 8-bit sRGB nonlinear entry,
/// the chosen format is such an entry, wherever it stands in the list.
pub proof fn lemma_preferred_format_chosen(formats: Seq<Surface_format>, i: int)
    requires
        0 <= i < formats.len(),
        is_preferred_format(formats[i]),
    ensures
        is_preferred_format(spec_choose_format(formats)),
{
    lemma_first_preferred_finds(formats, 0);
}

/// The first-preferred scan returns a preferred position exactly when
/// one exists at or after `i`.
proof fn lemma_first_preferred_finds(formats: Seq<Surface_format>, i: int)
    requires
        0 <= i <= formats.len(),
    ensures
        spec_first_preferred(formats, i) matches Some(k) ==> i <= k < formats.len()
            && is_preferred_format(formats[k]),
        spec_first_preferred(formats, i) is None ==> forall|j: int|
            i <= j < formats.len() ==> !is_preferred_format(#[trigger] formats[j]),
    decreases formats.len() - i,
{
    if i < formats.len() && !is_preferred_format(formats[i]) {
        lemma_first_preferred_finds(formats, i + 1);
    }
}

} // verus!
