//! The one fixed graphics pipeline: two shader stages and hardcoded
//! fixed-function state, built once against the render pass and reused
//! across swapchain rebuilds.

use vstd::prelude::*;

verus! {

/// Shader stage, topology, rasterization and blend codes as the driver
/// defines them.
pub const SHADER_STAGE_VERTEX: u32 = 1;

pub const SHADER_STAGE_FRAGMENT: u32 = 16;

pub const TOPOLOGY_TRIANGLE_LIST: u32 = 3;

pub const POLYGON_MODE_FILL: u32 = 0;

pub const CULL_MODE_BACK: u32 = 2;

pub const FRONT_FACE_CLOCKWISE: u32 = 1;

pub const BLEND_FACTOR_ZERO: u32 = 0;

pub const BLEND_FACTOR_ONE: u32 = 1;

pub const BLEND_FACTOR_SRC_ALPHA: u32 = 6;

pub const BLEND_FACTOR_ONE_MINUS_SRC_ALPHA: u32 = 7;

pub const BLEND_OP_ADD: u32 = 0;

pub const COLOR_COMPONENTS_RGBA: u32 = 15;

/// The fixed-function state the one graphics pipeline is built with.
/// Viewport and scissor are dynamic — rewritten each frame to the
/// current extent — so extent changes never force a pipeline rebuild.
#[derive(Debug, Clone, Copy, PartialEq, Eq, Structural)]
pub struct Pipeline_config {
    pub vertex_stage: u32,
    pub fragment_stage: u32,
    pub topology: u32,
    pub primitive_restart: bool,
    pub dynamic_viewport: bool,
    pub dynamic_scissor: bool,
    pub viewport_count: u32,
    pub scissor_count: u32,
    pub polygon_mode: u32,
    pub cull_mode: u32,
    pub front_face: u32,
    pub depth_clamp: bool,
    pub rasterizer_discard: bool,
    pub depth_bias: bool,
    pub sample_count: u32,
    pub sample_shading: bool,
    pub blend_enable: bool,
    pub src_color_blend_factor: u32,
    pub dst_color_blend_factor: u32,
    pub color_blend_op: u32,
    pub src_alpha_blend_factor: u32,
    pub dst_alpha_blend_factor: u32,
    pub alpha_blend_op: u32,
    pub color_write_mask: u32,
    pub logic_op_enable: bool,
    pub color_attachment_count: u32,
    pub depth_stencil: bool,
    pub subpass: u32,
}

/// The fixed pipeline description: triangle-list topology, dynamic
/// viewport and scissor, back-face culling with clockwise front face,
/// single-sample rasterization, source-alpha blending on one color
/// attachment, no depth or stencil.
pub open spec fn spec_pipeline_config() -> Pipeline_config {
    Pipeline_config {
        vertex_stage: SHADER_STAGE_VERTEX,
        fragment_stage: SHADER_STAGE_FRAGMENT,
        topology: TOPOLOGY_TRIANGLE_LIST,
        primitive_restart: false,
        dynamic_viewport: true,
        dynamic_scissor: true,
        viewport_count: 1,
        scissor_count: 1,
        polygon_mode: POLYGON_MODE_FILL,
        cull_mode: CULL_MODE_BACK,
        front_face: FRONT_FACE_CLOCKWISE,
        depth_clamp: false,
        rasterizer_discard: false,
        depth_bias: false,
        sample_count: 1,
        sample_shading: false,
        blend_enable: true,
        src_color_blend_factor: BLEND_FACTOR_SRC_ALPHA,
        dst_color_blend_factor: BLEND_FACTOR_ONE_MINUS_SRC_ALPHA,
        color_blend_op: BLEND_OP_ADD,
        src_alpha_blend_factor: BLEND_FACTOR_ONE,
        dst_alpha_blend_factor: BLEND_FACTOR_ZERO,
        alpha_blend_op: BLEND_OP_ADD,
        color_write_mask: COLOR_COMPONENTS_RGBA,
        logic_op_enable: false,
        color_attachment_count: 1,
        depth_stencil: false,
        subpass: 0,
    }
}

/// The pipelines the engine owns: exactly one, with one layout, built
/// from the fixed description.
#[derive(Debug, Clone, Copy, PartialEq, Eq, Structural)]
pub struct Graphics_pipelines {
    pub config: Pipeline_config,
    pub pipeline_count: usize,
}

impl Graphics_pipelines {
    /// Describe the one pipeline to build against the render pass. The
    /// host compiles the two embedded shader binaries into modules,
    /// builds the pipeline from this description, and destroys the
    /// modules immediately afterwards.
    pub fn new() -> (r: Graphics_pipelines)
        ensures
            r.config == spec_pipeline_config(),
            r.pipeline_count == 1,
    {
        Graphics_pipelines {
            config: Pipeline_config {
                vertex_stage: SHADER_STAGE_VERTEX,
                fragment_stage: SHADER_STAGE_FRAGMENT,
                topology: TOPOLOGY_TRIANGLE_LIST,
                primitive_restart: false,
                dynamic_viewport: true,
                dynamic_scissor: true,
                viewport_count: 1,
                scissor_count: 1,
                polygon_mode: POLYGON_MODE_FILL,
                cull_mode: CULL_MODE_BACK,
                front_face: FRONT_FACE_CLOCKWISE,
                depth_clamp: false,
                rasterizer_discard: false,
                depth_bias: false,
                sample_count: 1,
                sample_shading: false,
                blend_enable: true,
                src_color_blend_factor: BLEND_FACTOR_SRC_ALPHA,
                dst_color_blend_factor: BLEND_FACTOR_ONE_MINUS_SRC_ALPHA,
                color_blend_op: BLEND_OP_ADD,
                src_alpha_blend_factor: BLEND_FACTOR_ONE,
                dst_alpha_blend_factor: BLEND_FACTOR_ZERO,
                alpha_blend_op: BLEND_OP_ADD,
                color_write_mask: COLOR_COMPONENTS_RGBA,
                logic_op_enable: false,
                color_attachment_count: 1,
                depth_stencil: false,
                subpass: 0,
            },
            pipeline_count: 1,
        }
    }
}

} // verus!
