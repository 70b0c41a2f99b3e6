//! The engine aggregate and its frame orchestrator: instance
//! configuration, per-frame synchronization sizing, and the per-frame
//! acquire → record → submit → present state machine with self-healing
//! swapchain recreation.

use crate::command::Command_context;
use crate::device::Queue_family_indices;
use crate::pipeline::Graphics_pipelines;
use crate::pipeline::spec_pipeline_config;
use crate::swap_chain::Swap_chain;
use crate::swap_chain::Swap_chain_supports;
use crate::swap_chain::spec_choose_format;
use crate::swap_chain::spec_render_pass_config;
use crate::swap_chain::spec_supports_ready;
use crate::utils::Vulkan_error;
use crate::MAX_FRAMES_IN_FLIGHT;
use vstd::prelude::*;

verus! {

/// What the instance is created with: the layers and extensions to
/// enable. In diagnostic builds the validation layer and the debug
/// messenger extension join the platform-required extensions.
#[derive(Debug, Clone, PartialEq, Eq)]
pub struct Instance_config {
    pub enabled_layers: Vec<Vec<u8>>,
    pub enabled_extensions: Vec<Vec<u8>>,
}

/// Assemble the instance configuration from the platform's required
/// presentation extensions. With diagnostics on, the given debug
/// extension and validation layer are enabled as well.
pub fn build_instance_config(
    required_extensions: Vec<Vec<u8>>,
    debug: bool,
    debug_extension: Vec<u8>,
    validation_layer: Vec<u8>,
) -> (r: Instance_config)
    ensures
        debug ==> r.enabled_extensions@ == required_extensions@.push(debug_extension),
        debug ==> r.enabled_layers@ == seq![validation_layer],
        !debug ==> r.enabled_extensions@ == required_extensions@,
        !debug ==> r.enabled_layers@.len() == 0,
{
    let mut enabled_extensions = required_extensions;
    let mut enabled_layers: Vec<Vec<u8>> = Vec::new();
    if debug {
        enabled_extensions.push(debug_extension);
        enabled_layers.push(validation_layer);
        proof {
            assert(enabled_layers@ =~= seq![validation_layer]);
        }
    }
    Instance_config { enabled_layers, enabled_extensions }
}

/// How many synchronization objects of each kind exist — one
/// image-available semaphore and one in-flight fence per frame slot,
/// and one render-finished semaphore per swapchain image — and that
/// the fences start out signaled, so the first wait on each frame slot
/// returns at once.
#[derive(Debug, Clone, Copy, PartialEq, Eq, Structural)]
pub struct Sync_objects {
    pub image_available_count: usize,
    pub render_finished_count: usize,
    pub in_flight_count: usize,
    pub in_flight_start_signaled: bool,
}

impl Sync_objects {
    /// Size the synchronization objects: frame-slot many semaphores and
    /// fences, and image-count many render-finished semaphores. The
    /// in-flight fences are created signaled.
    pub fn new(image_count: usize) -> (r: Sync_objects)
        ensures
            r.image_available_count == MAX_FRAMES_IN_FLIGHT,
            r.in_flight_count == MAX_FRAMES_IN_FLIGHT,
            r.render_finished_count == image_count,
            r.in_flight_start_signaled,
    {
        Sync_objects {
            image_available_count: MAX_FRAMES_IN_FLIGHT,
            render_finished_count: image_count,
            in_flight_count: MAX_FRAMES_IN_FLIGHT,
            in_flight_start_signaled: true,
        }
    }
}

/// Pipeline-stage bit for color-attachment output, as the driver
/// defines it.
pub const PIPELINE_STAGE_COLOR_ATTACHMENT_OUTPUT: u32 = 1024;

/// How one frame's submission is wired: which semaphore the submission
/// waits on and at which stage, which command buffer runs, which
/// semaphore it signals, and which fence guards the frame slot.
#[derive(Debug, Clone, Copy, PartialEq, Eq, Structural)]
pub struct Submit_plan {
    pub wait_semaphore_slot: usize,
    pub wait_stage: u32,
    pub command_buffer_slot: usize,
    pub signal_semaphore_image: usize,
    pub fence_slot: usize,
}

/// How the presentation of that frame is wired: which render-finished
/// semaphore it waits on, and which image it presents.
#[derive(Debug, Clone, Copy, PartialEq, Eq, Structural)]
pub struct Present_plan {
    pub wait_semaphore_image: usize,
    pub image_index: usize,
}

/// What image acquisition reported: an image (possibly with a note that
/// the surface is suboptimal), an out-of-date surface, or any other
/// driver error.
#[derive(Debug, Clone, Copy, PartialEq, Eq, Structural)]
pub enum Acquire_outcome {
    Acquired { image_index: usize, suboptimal: bool },
    Out_of_date,
    Device_error,
}

/// What presentation reported: presented (possibly suboptimally), an
/// out-of-date surface, or any other driver error.
#[derive(Debug, Clone, Copy, PartialEq, Eq, Structural)]
pub enum Present_outcome {
    Presented { suboptimal: bool },
    Out_of_date,
    Device_error,
}

/// The engine state the contracts speak of: the window size, the chosen
/// queue families, the swapchain, the fixed pipeline, the command
/// context, the synchronization sizes, and the frame slot up next.
#[derive(Debug, Clone, PartialEq, Eq)]
pub struct Vulkan_application {
    pub window_width: u32,
    pub window_height: u32,
    pub indices: Queue_family_indices,
    pub swap_chain: Swap_chain,
    pub graphics_pipelines: Graphics_pipelines,
    pub command_context: Command_context,
    pub sync_objects: Sync_objects,
    pub current_frame: usize,
}

impl Vulkan_application {
    /// The invariant every construction and every frame preserves: the
    /// frame slot stays below the in-flight bound, the queue families
    /// are settled, each frame slot has its semaphore, fence and
    /// command buffer, each swapchain image has its render-finished
    /// semaphore, and exactly one pipeline exists.
    pub open spec fn wf(self) -> bool {
        &&& self.current_frame < MAX_FRAMES_IN_FLIGHT
        &&& self.indices.graphics_family is Some
        &&& self.indices.present_family is Some
        &&& self.sync_objects.image_available_count == MAX_FRAMES_IN_FLIGHT
        &&& self.sync_objects.in_flight_count == MAX_FRAMES_IN_FLIGHT
        &&& self.sync_objects.render_finished_count == self.swap_chain.image_count
        &&& self.command_context.draw_buffer_count == MAX_FRAMES_IN_FLIGHT
        &&& self.graphics_pipelines.pipeline_count == 1
    }

    /// Construct the engine state in dependency order: swapchain with
    /// its render pass, the one pipeline, the command context on the
    /// graphics family, and the synchronization objects sized to the
    /// image count the driver produced.
    pub fn new(
        width: u32,
        height: u32,
        indices: Queue_family_indices,
        supports: &Swap_chain_supports,
        image_count: usize,
    ) -> (r: Vulkan_application)
        requires
            spec_supports_ready(*supports),
            indices.graphics_family is Some,
            indices.present_family is Some,
        ensures
            r.wf(),
            r.current_frame == 0,
            r.window_width == width,
            r.window_height == height,
            r.indices == indices,
            r.swap_chain.is_built_from(
                *supports,
                indices,
                width,
                height,
                image_count,
                spec_render_pass_config(spec_choose_format(supports.formats@).format),
            ),
            r.graphics_pipelines.config == spec_pipeline_config(),
            r.command_context.pool_queue_family == indices.graphics_family->0,
            r.sync_objects.render_finished_count == image_count,
    {
        let swap_chain = Swap_chain::new(supports, &indices, width, height, image_count);
        let graphics_pipelines = Graphics_pipelines::new();
        let command_context = Command_context::new(&indices);
        let sync_objects = Sync_objects::new(image_count);
        Vulkan_application {
            window_width: width,
            window_height: height,
            indices,
            swap_chain,
            graphics_pipelines,
            command_context,
            sync_objects,
            current_frame: 0,
        }
    }

    /// What a swapchain rebuild leaves behind: the swapchain rebuilt
    /// from the fresh surface queries with the render pass kept, the
    /// render-finished semaphores resized to the new image count, and
    /// everything else untouched.
    pub open spec fn spec_rebuilt_app(
        pre: Vulkan_application,
        post: Vulkan_application,
        supports: Swap_chain_supports,
        image_count: usize,
    ) -> bool {
        &&& post.swap_chain.is_built_from(
            supports,
            pre.indices,
            pre.window_width,
            pre.window_height,
            image_count,
            pre.swap_chain.render_pass,
        )
        &&& post.sync_objects.image_available_count == pre.sync_objects.image_available_count
        &&& post.sync_objects.in_flight_count == pre.sync_objects.in_flight_count
        &&& post.sync_objects.render_finished_count == image_count
        &&& post.sync_objects.in_flight_start_signaled == pre.sync_objects.in_flight_start_signaled
        &&& post.window_width == pre.window_width
        &&& post.window_height == pre.window_height
        &&& post.indices == pre.indices
        &&& post.graphics_pipelines == pre.graphics_pipelines
        &&& post.command_context == pre.command_context
    }

    /// Rebuild the swapchain against the fresh surface queries and
    /// resize the render-finished semaphores to the new image count.
    /// The host drains all GPU work before calling and releases the old
    /// views, framebuffers and swapchain. The frame slot is untouched.
    pub fn recreate_swap_chain(&mut self, supports: &Swap_chain_supports, image_count: usize)
        requires
            old(self).wf(),
            spec_supports_ready(*supports),
        ensures
            final(self).wf(),
            Self::spec_rebuilt_app(*old(self), *final(self), *supports, image_count),
            final(self).current_frame == old(self).current_frame,
    {
        let width = self.window_width;
        let height = self.window_height;
        self.swap_chain.recreate(supports, &self.indices, width, height, image_count);
        self.sync_objects.render_finished_count = image_count;
    }

    /// The frame slot the next frame uses.
    pub open spec fn spec_next_frame(current_frame: usize) -> int {
        (current_frame + 1) % (MAX_FRAMES_IN_FLIGHT as int)
    }

    /// A transition that only moves to the next frame slot.
    pub open spec fn spec_advanced_frame(pre: Vulkan_application, post: Vulkan_application) -> bool {
        &&& post == (Vulkan_application { current_frame: post.current_frame, ..pre })
        &&& post.current_frame == Self::spec_next_frame(pre.current_frame)
    }

    /// A transition that fails: the state is untouched and the error is
    /// a runtime failure.
    pub open spec fn spec_frame_failed(
        pre: Vulkan_application,
        post: Vulkan_application,
        r: Result<(), Vulkan_error>,
    ) -> bool {
        &&& post == pre
        &&& r matches Err(e) && e is Runtime_failure
    }

    /// The frame state machine, relating the state before a frame to
    /// the state after it, given what the driver reported at each step:
    ///
    /// - a fence wait or reset failure, any acquisition error other
    ///   than out-of-date, a recording or submission failure, and any
    ///   presentation error other than out-of-date are hard failures
    ///   that leave the state untouched;
    /// - an out-of-date surface at acquisition rebuilds the swapchain
    ///   and counts as success, without consuming the frame slot;
    /// - presentation reporting out-of-date or suboptimal, or
    ///   acquisition having reported suboptimal, rebuilds the swapchain
    ///   after the frame, which still advances the frame slot;
    /// - otherwise the frame presents and the frame slot advances.
    pub open spec fn spec_draw_frame(
        pre: Vulkan_application,
        post: Vulkan_application,
        r: Result<(), Vulkan_error>,
        fence_ok: bool,
        acquire: Acquire_outcome,
        submit_ok: bool,
        present: Present_outcome,
        supports: Swap_chain_supports,
        image_count: usize,
    ) -> bool {
        if !fence_ok {
            Self::spec_frame_failed(pre, post, r)
        } else {
            match acquire {
                Acquire_outcome::Device_error => Self::spec_frame_failed(pre, post, r),
                Acquire_outcome::Out_of_date => {
                    &&& Self::spec_rebuilt_app(pre, post, supports, image_count)
                    &&& post.current_frame == pre.current_frame
                    &&& r is Ok
                },
                Acquire_outcome::Acquired { image_index, suboptimal } => {
                    if !submit_ok {
                        Self::spec_frame_failed(pre, post, r)
                    } else {
                        match present {
                            Present_outcome::Device_error => Self::spec_frame_failed(pre, post, r),
                            Present_outcome::Out_of_date => {
                                &&& Self::spec_rebuilt_app(pre, post, supports, image_count)
                                &&& post.current_frame == Self::spec_next_frame(pre.current_frame)
                                &&& r is Ok
                            },
                            Present_outcome::Presented { suboptimal: present_suboptimal } => {
                                if present_suboptimal || suboptimal {
                                    &&& Self::spec_rebuilt_app(pre, post, supports, image_count)
                                    &&& post.current_frame == Self::spec_next_frame(
                                        pre.current_frame,
                                    )
                                    &&& r is Ok
                                } else {
                                    &&& Self::spec_advanced_frame(pre, post)
                                    &&& r is Ok
                                }
                            },
                        }
                    }
                },
            }
        }
    }

    /// Decide the synchronization wiring for the frame about to be
    /// submitted: wait on the image-available semaphore of the current
    /// frame slot at the color-attachment-output stage, run the command
    /// buffer of that slot, signal the render-finished semaphore of the
    /// acquired image — sized to image count, so indexed by image, not
    /// by slot — and guard the slot with its in-flight fence.
    /// Presentation then waits on that same render-finished semaphore.
    pub fn plan_submit(&self, image_index: usize) -> (r: (Submit_plan, Present_plan))
        requires
            self.wf(),
            image_index < self.swap_chain.image_count,
        ensures
            r.0 == (Submit_plan {
                wait_semaphore_slot: self.current_frame,
                wait_stage: PIPELINE_STAGE_COLOR_ATTACHMENT_OUTPUT,
                command_buffer_slot: self.current_frame,
                signal_semaphore_image: image_index,
                fence_slot: self.current_frame,
            }),
            r.1 == (Present_plan { wait_semaphore_image: image_index, image_index }),
            r.0.wait_semaphore_slot < self.sync_objects.image_available_count,
            r.0.command_buffer_slot < self.command_context.draw_buffer_count,
            r.0.signal_semaphore_image < self.sync_objects.render_finished_count,
            r.0.fence_slot < self.sync_objects.in_flight_count,
            r.1.wait_semaphore_image < self.sync_objects.render_finished_count,
    {
        (
            Submit_plan {
                wait_semaphore_slot: self.current_frame,
                wait_stage: PIPELINE_STAGE_COLOR_ATTACHMENT_OUTPUT,
                command_buffer_slot: self.current_frame,
                signal_semaphore_image: image_index,
                fence_slot: self.current_frame,
            },
            Present_plan { wait_semaphore_image: image_index, image_index },
        )
    }

    /// Move to the next frame slot, wrapping at the in-flight bound.
    fn advance_frame(&mut self)
        requires
            old(self).current_frame < MAX_FRAMES_IN_FLIGHT,
        ensures
            Self::spec_advanced_frame(*old(self), *final(self)),
            final(self).current_frame < MAX_FRAMES_IN_FLIGHT,
    {
        self.current_frame = (self.current_frame + 1) % MAX_FRAMES_IN_FLIGHT;
    }

    /// Run one frame of the orchestrator against what the driver
    /// reported: the fence wait, the acquisition, the recording and
    /// submission, and the presentation. Staleness reported by
    /// acquisition or presentation is absorbed by rebuilding the
    /// swapchain from the fresh surface queries; every other driver
    /// error is returned as a runtime failure. The host performs the
    /// driver calls in this order and feeds their outcomes in.
    pub fn draw_frame(
        &mut self,
        fence_ok: bool,
        acquire: Acquire_outcome,
        submit_ok: bool,
        present: Present_outcome,
        supports: &Swap_chain_supports,
        image_count: usize,
    ) -> (r: Result<(), Vulkan_error>)
        requires
            old(self).wf(),
            spec_supports_ready(*supports),
            acquire matches Acquire_outcome::Acquired { image_index, .. } ==> image_index < old(
                self,
            ).swap_chain.image_count,
        ensures
            final(self).wf(),
            Self::spec_draw_frame(
                *old(self),
                *final(self),
                r,
                fence_ok,
                acquire,
                submit_ok,
                present,
                *supports,
                image_count,
            ),
    {
        if !fence_ok {
            return Err(Vulkan_error::Runtime_failure);
        }
        match acquire {
            Acquire_outcome::Device_error => Err(Vulkan_error::Runtime_failure),
            Acquire_outcome::Out_of_date => {
                self.recreate_swap_chain(supports, image_count);
                Ok(())
            },
            Acquire_outcome::Acquired { image_index: _, suboptimal } => {
                if !submit_ok {
                    return Err(Vulkan_error::Runtime_failure);
                }
                match present {
                    Present_outcome::Device_error => Err(Vulkan_error::Runtime_failure),
                    Present_outcome::Out_of_date => {
                        self.recreate_swap_chain(supports, image_count);
                        self.advance_frame();
                        Ok(())
                    },
                    Present_outcome::Presented { suboptimal: present_suboptimal } => {
                        if present_suboptimal || suboptimal {
                            self.recreate_swap_chain(supports, image_count);
                        }
                        self.advance_frame();
                        Ok(())
                    },
                }
            },
        }
    }
}

/// Law: the frame slot only ever takes the values 0 and 1, and so never
/// reaches the in-flight bound.
pub proof fn lemma_current_frame_in_range(app: Vulkan_application)
    requires
        app.wf(),
    ensures
        app.current_frame == 0 || app.current_frame == 1,
        app.current_frame < MAX_FRAMES_IN_FLIGHT,
{
}

/// Law: a presented frame moves to the other of the two slots, so the
/// slot cycles through exactly 0 and 1.
pub proof fn lemma_frame_slot_alternates(pre: Vulkan_application, post: Vulkan_application)
    requires
        pre.wf(),
        Vulkan_application::spec_advanced_frame(pre, post),
    ensures
        post.current_frame != pre.current_frame,
        post.current_frame == 0 || post.current_frame == 1,
{
}

/// Law: after any build or rebuild there are exactly as many
/// render-finished semaphores as swapchain images.
pub proof fn lemma_semaphores_match_images(app: Vulkan_application)
    requires
        app.wf(),
    ensures
        app.sync_objects.render_finished_count == app.swap_chain.image_count,
{
}

/// Law: an out-of-date surface at acquisition is absorbed. The frame
/// reports success, the swapchain is rebuilt from the fresh surface
/// queries, the frame slot is not consumed, and the next frame that
/// runs through cleanly still advances the frame slot.
pub proof fn lemma_out_of_date_acquire_recovers(
    pre: Vulkan_application,
    mid: Vulkan_application,
    post: Vulkan_application,
    r1: Result<(), Vulkan_error>,
    r2: Result<(), Vulkan_error>,
    submit_ok: bool,
    present: Present_outcome,
    supports: Swap_chain_supports,
    image_count: usize,
    supports2: Swap_chain_supports,
    image_count2: usize,
    image_index: usize,
)
    requires
        pre.wf(),
        Vulkan_application::spec_draw_frame(
            pre,
            mid,
            r1,
            true,
            Acquire_outcome::Out_of_date,
            submit_ok,
            present,
            supports,
            image_count,
        ),
        Vulkan_application::spec_draw_frame(
            mid,
            post,
            r2,
            true,
            Acquire_outcome::Acquired { image_index, suboptimal: false },
            true,
            Present_outcome::Presented { suboptimal: false },
            supports2,
            image_count2,
        ),
    ensures
        r1 is Ok,
        mid.current_frame == pre.current_frame,
        mid.swap_chain.is_built_from(
            supports,
            pre.indices,
            pre.window_width,
            pre.window_height,
            image_count,
            pre.swap_chain.render_pass,
        ),
        r2 is Ok,
        post.current_frame == Vulkan_application::spec_next_frame(pre.current_frame),
{
}

} // verus!
