//! The passes of one frame, as commands for whoever owns the graphics device.

use vstd::prelude::*;
use crate::batch::{
    batch, batchable, batched_indices, batched_normals, batched_positions, index_count,
    vertex_count, GameObject, GameState,
};
use crate::buffer::{len_after_upload, plan_for, Render3dData, UploadPlan};
use crate::math::{NEG_ONE_BITS, ONE_BITS};

verus! {

/// Place of the textured-quad program in the shader registry.
pub const QUAD_SHADER: usize = 0;

/// Place of the flat triangle program in the shader registry.
pub const TRIANGLE_SHADER: usize = 1;

/// Place of the black wireframe program in the shader registry.
pub const WIREFRAME_SHADER: usize = 2;

/// Place of the depth-shaded diffuse program in the shader registry.
pub const DIFFUSE_SHADER: usize = 3;

/// Number of elements in each GPU buffer before the first upload.
pub const INITIAL_CAPACITY: usize = 100;

/// By how much the offscreen image is smaller than the window, per axis.
pub const PIXEL_SCALE: u32 = 10;

/// Shortest time between two frames, in nanoseconds: a sixtieth of a second.
pub const FRAME_INTERVAL_NANOS: u32 = 1_000_000_000 / 60;

/// Where a draw lands.
#[derive(Clone, Copy, Debug, PartialEq, Eq)]
pub enum RenderTarget {
    /// The window's own framebuffer.
    Surface,
    /// The low-resolution colour texture with its depth buffer.
    Offscreen,
}

/// The program and the pipeline state of a draw.
#[derive(Clone, Copy, Debug, PartialEq, Eq)]
pub struct ShaderData {
    /// Place of the program in the shader registry.
    pub program: usize,
    /// Keep a fragment only if it is nearer than what is there, and record
    /// its depth.
    pub depth_test: bool,
    /// Blend by the alpha of what is drawn.
    pub alpha_blending: bool,
}

/// One step of a frame.
#[derive(Clone, Copy, Debug, PartialEq, Eq)]
pub enum RenderCommand {
    /// Clear colour and depth of the window's framebuffer.
    ClearSurface,
    /// Bind the offscreen colour and depth buffers and clear them to
    /// transparent black and to the far plane.
    ClearOffscreen,
    /// Bring the GPU buffers of the batch up to date.
    Upload(UploadPlan),
    /// Draw the whole batch with one call.
    DrawBatch { target: RenderTarget, shader: ShaderData },
    /// Draw the offscreen colour texture over the window's framebuffer as one
    /// quad, sampled without interpolation.
    Composite { shader: ShaderData },
    /// Let the user interface draw on top and change the scene.
    Overlay,
    /// Hand the finished frame to the window.
    Present,
}

impl RenderCommand {
    /// The command reads or writes the offscreen buffers.
    pub open spec fn touches_offscreen(&self) -> bool {
        match *self {
            RenderCommand::ClearOffscreen => true,
            RenderCommand::DrawBatch { target, .. } => target == RenderTarget::Offscreen,
            RenderCommand::Composite { .. } => true,
            _ => false,
        }
    }
}

/// A corner of the quad that carries the offscreen image: the bit patterns of
/// its position in clip space and of its texture coordinates.
#[derive(Clone, Copy, Debug, PartialEq, Eq)]
pub struct QuadVertex {
    pub position: (u32, u32),
    pub uv: (u32, u32),
}

/// The four corners of the quad, counter-clockwise from the lower left.
pub open spec fn quad_vertices() -> Seq<QuadVertex> {
    seq![
        QuadVertex { position: (NEG_ONE_BITS, NEG_ONE_BITS), uv: (0u32, 0u32) },
        QuadVertex { position: (ONE_BITS, NEG_ONE_BITS), uv: (ONE_BITS, 0u32) },
        QuadVertex { position: (ONE_BITS, ONE_BITS), uv: (ONE_BITS, ONE_BITS) },
        QuadVertex { position: (NEG_ONE_BITS, ONE_BITS), uv: (0u32, ONE_BITS) },
    ]
}

/// The two triangles of the quad.
pub open spec fn quad_indices() -> Seq<u32> {
    seq![0u32, 1u32, 2u32, 0u32, 2u32, 3u32]
}

/// A tenth of `extent`, rounded down, but at least one.
pub open spec fn pixel_extent(extent: u32) -> u32 {
    if extent / PIXEL_SCALE == 0 {
        1u32
    } else {
        extent / PIXEL_SCALE
    }
}

/// Size of the offscreen image for a window of `window_size`.
pub fn pixel_texture_size(window_size: (u32, u32)) -> (size: (u32, u32))
    ensures
        size == (pixel_extent(window_size.0), pixel_extent(window_size.1)),
        size.0 >= 1,
        size.1 >= 1,
{
    let w: u32 = window_size.0 / PIXEL_SCALE;
    let h: u32 = window_size.1 / PIXEL_SCALE;
    (if w == 0 { 1 } else { w }, if h == 0 { 1 } else { h })
}

/// Whether a frame is due when `secs` whole seconds and `subsec_nanos`
/// nanoseconds have passed since the last one.
pub fn frame_due(secs: u64, subsec_nanos: u32) -> (due: bool)
    ensures
        due == (secs * 1_000_000_000 + subsec_nanos >= FRAME_INTERVAL_NANOS),
{
    secs > 0 || subsec_nanos >= FRAME_INTERVAL_NANOS
}

/// The diffuse program with depth test and alpha blending, as used for the
/// scene.
pub open spec fn scene_shader() -> ShaderData {
    ShaderData { program: DIFFUSE_SHADER, depth_test: true, alpha_blending: true }
}

/// The quad program with depth test and alpha blending, as used to bring the
/// offscreen image to the window.
pub open spec fn composite_shader() -> ShaderData {
    ShaderData { program: QUAD_SHADER, depth_test: true, alpha_blending: true }
}

/// The batch drawn straight to `target`.
pub open spec fn batch_pass(plan: UploadPlan, target: RenderTarget, shader: ShaderData) -> Seq<
    RenderCommand,
> {
    seq![RenderCommand::Upload(plan), RenderCommand::DrawBatch { target, shader }]
}

/// The batch drawn to the offscreen buffers, which are then drawn to the
/// window.
pub open spec fn pixelation_pass(plan: UploadPlan, shader: ShaderData) -> Seq<RenderCommand> {
    seq![RenderCommand::ClearOffscreen] + batch_pass(plan, RenderTarget::Offscreen, shader)
        + seq![RenderCommand::Composite { shader: composite_shader() }]
}

/// A whole frame: clear, the scene by one of the two passes, the overlay,
/// present.
pub open spec fn frame_commands(is_pixelated: bool, plan: UploadPlan) -> Seq<RenderCommand> {
    seq![RenderCommand::ClearSurface] + (if is_pixelated {
        pixelation_pass(plan, scene_shader())
    } else {
        batch_pass(plan, RenderTarget::Surface, scene_shader())
    }) + seq![RenderCommand::Overlay, RenderCommand::Present]
}

/// What a pixelated frame keeps beside its batch: the size of the offscreen
/// image and the quad that carries it.
#[derive(Debug)]
pub struct Render3dPixelationData {
    pub render3d_data: Render3dData,
    pub pixel_size: (u32, u32),
    pub quad: Vec<QuadVertex>,
    pub quad_indices: Vec<u32>,
}

/// All that rendering keeps from frame to frame.
#[derive(Debug)]
pub struct RenderState {
    pub window_size: (u32, u32),
    pub render3d_pixelation_data: Render3dPixelationData,
}

impl RenderState {
    /// The state before the first frame: nothing staged, GPU buffers of the
    /// initial capacity, an offscreen image a tenth of the window, the quad.
    pub fn init(window_size: (u32, u32)) -> (state: RenderState)
        ensures
            state.window_size == window_size,
            state.render3d_pixelation_data.pixel_size == (
                pixel_extent(window_size.0),
                pixel_extent(window_size.1),
            ),
            state.render3d_pixelation_data.quad@ == quad_vertices(),
            state.render3d_pixelation_data.quad_indices@ == quad_indices(),
            state.render3d_pixelation_data.render3d_data.pos@.len() == 0,
            state.render3d_pixelation_data.render3d_data.nor@.len() == 0,
            state.render3d_pixelation_data.render3d_data.ind@.len() == 0,
            state.render3d_pixelation_data.render3d_data.vbo_len == INITIAL_CAPACITY,
            state.render3d_pixelation_data.render3d_data.ibo_len == INITIAL_CAPACITY,
    {
        let render_buffer = Render3dData::new(INITIAL_CAPACITY);
        let pixel_size = pixel_texture_size(window_size);
        let quad = vec![
            QuadVertex { position: (NEG_ONE_BITS, NEG_ONE_BITS), uv: (0, 0) },
            QuadVertex { position: (ONE_BITS, NEG_ONE_BITS), uv: (ONE_BITS, 0) },
            QuadVertex { position: (ONE_BITS, ONE_BITS), uv: (ONE_BITS, ONE_BITS) },
            QuadVertex { position: (NEG_ONE_BITS, ONE_BITS), uv: (0, ONE_BITS) },
        ];
        let quad_ind: Vec<u32> = vec![0, 1, 2, 0, 2, 3];
        assert(quad@ =~= quad_vertices());
        assert(quad_ind@ =~= quad_indices());
        RenderState {
            window_size,
            render3d_pixelation_data: Render3dPixelationData {
                render3d_data: render_buffer,
                pixel_size,
                quad,
                quad_indices: quad_ind,
            },
        }
    }
}

/// Batches `game_objects` and draws the batch to `target` with one call.
pub fn render3d(
    target: RenderTarget,
    game_objects: &[GameObject],
    render_data: &mut Render3dData,
    shader_data: &ShaderData,
) -> (commands: Vec<RenderCommand>)
    requires
        batchable(game_objects@),
    ensures
        final(render_data).well_formed(),
        final(render_data).pos@ == batched_positions(game_objects@),
        final(render_data).nor@ == batched_normals(game_objects@),
        final(render_data).ind@ == batched_indices(game_objects@),
        final(render_data).vbo_len == len_after_upload(
            old(render_data).vbo_len,
            vertex_count(game_objects@),
            vertex_count(game_objects@),
        ),
        final(render_data).ibo_len == len_after_upload(
            old(render_data).ibo_len,
            vertex_count(game_objects@),
            index_count(game_objects@),
        ),
        commands@ == batch_pass(
            plan_for(
                old(render_data).vbo_len,
                old(render_data).ibo_len,
                vertex_count(game_objects@),
                index_count(game_objects@),
            ),
            target,
            *shader_data,
        ),
{
    let plan = batch(game_objects, render_data);
    let commands = vec![
        RenderCommand::Upload(plan),
        RenderCommand::DrawBatch { target, shader: *shader_data },
    ];
    assert(commands@ =~= batch_pass(plan, target, *shader_data));
    commands
}

/// Batches `game_objects`, draws the batch to the cleared offscreen buffers
/// and then draws those over the window.
pub fn render3d_pixelation(
    game_objects: &[GameObject],
    render_data: &mut Render3dPixelationData,
    shader_data: &ShaderData,
) -> (commands: Vec<RenderCommand>)
    requires
        batchable(game_objects@),
    ensures
        final(render_data).pixel_size == old(render_data).pixel_size,
        final(render_data).quad@ == old(render_data).quad@,
        final(render_data).quad_indices@ == old(render_data).quad_indices@,
        final(render_data).render3d_data.well_formed(),
        final(render_data).render3d_data.pos@ == batched_positions(game_objects@),
        final(render_data).render3d_data.nor@ == batched_normals(game_objects@),
        final(render_data).render3d_data.ind@ == batched_indices(game_objects@),
        final(render_data).render3d_data.vbo_len == len_after_upload(
            old(render_data).render3d_data.vbo_len,
            vertex_count(game_objects@),
            vertex_count(game_objects@),
        ),
        final(render_data).render3d_data.ibo_len == len_after_upload(
            old(render_data).render3d_data.ibo_len,
            vertex_count(game_objects@),
            index_count(game_objects@),
        ),
        commands@ == pixelation_pass(
            plan_for(
                old(render_data).render3d_data.vbo_len,
                old(render_data).render3d_data.ibo_len,
                vertex_count(game_objects@),
                index_count(game_objects@),
            ),
            *shader_data,
        ),
{
    let plan = batch(game_objects, &mut render_data.render3d_data);
    let commands = vec![
        RenderCommand::ClearOffscreen,
        RenderCommand::Upload(plan),
        RenderCommand::DrawBatch { target: RenderTarget::Offscreen, shader: *shader_data },
        RenderCommand::Composite {
            shader: ShaderData { program: QUAD_SHADER, depth_test: true, alpha_blending: true },
        },
    ];
    assert(commands@ =~= pixelation_pass(plan, *shader_data));
    commands
}

/// Plans one frame of the scene `gs`: clear the window, draw the scene
/// directly or through the offscreen buffers as `gs.is_pixelated` says, let
/// the overlay draw, present.
pub fn render(gs: &GameState, rs: &mut RenderState) -> (commands: Vec<RenderCommand>)
    requires
        batchable(gs.game_objects@),
    ensures
        final(rs).window_size == old(rs).window_size,
        final(rs).render3d_pixelation_data.pixel_size == old(
            rs,
        ).render3d_pixelation_data.pixel_size,
        final(rs).render3d_pixelation_data.quad@ == old(rs).render3d_pixelation_data.quad@,
        final(rs).render3d_pixelation_data.quad_indices@ == old(
            rs,
        ).render3d_pixelation_data.quad_indices@,
        final(rs).render3d_pixelation_data.render3d_data.well_formed(),
        final(rs).render3d_pixelation_data.render3d_data.pos@ == batched_positions(
            gs.game_objects@,
        ),
        final(rs).render3d_pixelation_data.render3d_data.nor@ == batched_normals(
            gs.game_objects@,
        ),
        final(rs).render3d_pixelation_data.render3d_data.ind@ == batched_indices(
            gs.game_objects@,
        ),
        final(rs).render3d_pixelation_data.render3d_data.vbo_len == len_after_upload(
            old(rs).render3d_pixelation_data.render3d_data.vbo_len,
            vertex_count(gs.game_objects@),
            vertex_count(gs.game_objects@),
        ),
        final(rs).render3d_pixelation_data.render3d_data.ibo_len == len_after_upload(
            old(rs).render3d_pixelation_data.render3d_data.ibo_len,
            vertex_count(gs.game_objects@),
            index_count(gs.game_objects@),
        ),
        commands@ == frame_commands(
            gs.is_pixelated,
            plan_for(
                old(rs).render3d_pixelation_data.render3d_data.vbo_len,
                old(rs).render3d_pixelation_data.render3d_data.ibo_len,
                vertex_count(gs.game_objects@),
                index_count(gs.game_objects@),
            ),
        ),
{
    let shader = ShaderData { program: DIFFUSE_SHADER, depth_test: true, alpha_blending: true };
    let mut commands: Vec<RenderCommand> = vec![RenderCommand::ClearSurface];
    let mut scene = if !gs.is_pixelated {
        render3d(
            RenderTarget::Surface,
            gs.game_objects.as_slice(),
            &mut rs.render3d_pixelation_data.render3d_data,
            &shader,
        )
    } else {
        render3d_pixelation(gs.game_objects.as_slice(), &mut rs.render3d_pixelation_data, &shader)
    };
    let ghost scene_commands = scene@;
    commands.append(&mut scene);
    commands.push(RenderCommand::Overlay);
    commands.push(RenderCommand::Present);
    assert(commands@ =~= seq![RenderCommand::ClearSurface] + scene_commands
        + seq![RenderCommand::Overlay, RenderCommand::Present]);
    commands
}

/// In a pixelated frame the scene is drawn to the offscreen buffers before
/// they are drawn over the window. In a frame that is not pixelated no
/// command touches the offscreen buffers.
pub proof fn lemma_offscreen_order(is_pixelated: bool, plan: UploadPlan)
    ensures
        is_pixelated ==> {
            let commands = frame_commands(true, plan);
            &&& commands.len() == 7
            &&& commands[1] == RenderCommand::ClearOffscreen
            &&& commands[3] == (RenderCommand::DrawBatch {
                target: RenderTarget::Offscreen,
                shader: scene_shader(),
            })
            &&& commands[4] == (RenderCommand::Composite { shader: composite_shader() })
        },
        !is_pixelated ==> forall|k: int|
            0 <= k < frame_commands(false, plan).len() ==> !(#[trigger] frame_commands(
                false,
                plan,
            )[k]).touches_offscreen(),
{
}

} // verus!
