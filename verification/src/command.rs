//! The command context: the pool bound to the graphics family, one
//! primary command buffer per frame slot, and the fixed sequence of
//! commands recorded into a buffer each frame.

use crate::device::Queue_family_indices;
use crate::pipeline::Graphics_pipelines;
use crate::swap_chain::Extent_2d;
use crate::swap_chain::Swap_chain;
use crate::MAX_FRAMES_IN_FLIGHT;
use vstd::prelude::*;

verus! {

/// One recorded command, in the order the driver is to perform them.
/// Render area, viewport and scissor all cover the swapchain extent at
/// the origin; the clear color is fixed.
#[derive(Debug, Clone, Copy, PartialEq, Eq, Structural)]
pub enum Draw_command {
    Reset_buffer,
    Begin_buffer,
    Begin_render_pass { image_index: usize, extent: Extent_2d },
    Bind_pipeline { pipeline_index: usize },
    Set_viewport { extent: Extent_2d },
    Set_scissor { extent: Extent_2d },
    Draw { vertex_count: u32, instance_count: u32, first_vertex: u32, first_instance: u32 },
    End_render_pass,
    End_buffer,
}

/// The whole recording for one frame: begin the render pass on the
/// framebuffer of the acquired image, bind the one pipeline, set
/// viewport and scissor to the current extent, draw one instance of
/// three vertices, and close everything in order.
pub open spec fn spec_draw_commands(image_index: usize, extent: Extent_2d) -> Seq<Draw_command> {
    seq![
        Draw_command::Reset_buffer,
        Draw_command::Begin_buffer,
        Draw_command::Begin_render_pass { image_index, extent },
        Draw_command::Bind_pipeline { pipeline_index: 0 },
        Draw_command::Set_viewport { extent },
        Draw_command::Set_scissor { extent },
        Draw_command::Draw { vertex_count: 3, instance_count: 1, first_vertex: 0, first_instance: 0 },
        Draw_command::End_render_pass,
        Draw_command::End_buffer,
    ]
}

/// The command context: one pool on the graphics family, with one
/// resettable primary buffer per frame slot.
#[derive(Debug, Clone, Copy, PartialEq, Eq, Structural)]
pub struct Command_context {
    pub pool_queue_family: u32,
    pub draw_buffer_count: usize,
}

impl Command_context {
    /// A pool on the graphics family with one buffer per frame slot.
    pub fn new(indices: &Queue_family_indices) -> (r: Command_context)
        requires
            indices.graphics_family is Some,
        ensures
            r.pool_queue_family == indices.graphics_family->0,
            r.draw_buffer_count == MAX_FRAMES_IN_FLIGHT,
    {
        Command_context {
            pool_queue_family: indices.graphics_family.unwrap(),
            draw_buffer_count: MAX_FRAMES_IN_FLIGHT,
        }
    }

    /// Record the frame's commands for the buffer of slot `index`
    /// against the framebuffer of the acquired image. The recording
    /// either completes whole or the driver rejects a step and the host
    /// submits nothing.
    pub fn get_draw_buffer(
        &self,
        index: usize,
        image_index: usize,
        swap_chain: &Swap_chain,
        graphics_pipelines: &Graphics_pipelines,
    ) -> (r: Vec<Draw_command>)
        requires
            index < self.draw_buffer_count,
            image_index < swap_chain.image_count,
            graphics_pipelines.pipeline_count > 0,
        ensures
            r@ == spec_draw_commands(image_index, swap_chain.extent),
    {
        let extent = swap_chain.extent;
        let mut commands: Vec<Draw_command> = Vec::new();
        commands.push(Draw_command::Reset_buffer);
        commands.push(Draw_command::Begin_buffer);
        commands.push(Draw_command::Begin_render_pass { image_index, extent });
        commands.push(Draw_command::Bind_pipeline { pipeline_index: 0 });
        commands.push(Draw_command::Set_viewport { extent });
        commands.push(Draw_command::Set_scissor { extent });
        commands.push(
            Draw_command::Draw {
                vertex_count: 3,
                instance_count: 1,
                first_vertex: 0,
                first_instance: 0,
            },
        );
        commands.push(Draw_command::End_render_pass);
        commands.push(Draw_command::End_buffer);
        proof {
            assert(commands@ =~= spec_draw_commands(image_index, extent));
        }
        commands
    }
}

} // verus!
