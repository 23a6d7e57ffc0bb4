//! Render-pass descriptions and their submission.
//!
//! A render-pass description is data: passes in their order, each with its
//! target, its optional depth target and its pipeline steps in their order.
//! It borrows the GPU objects that it names: pipelines `P`, buffers `B`, bind
//! groups `G` and depth views `D`. Submission resolves the description against
//! the registry and against the mesh that is being drawn, and yields the
//! commands for the graphics device in exactly the order of the description.

use crate::model::{Mesh, Model};
use crate::project::Project;
use crate::store::Handle;
use crate::texture::{TextureEntry, TextureId};
use std::ops::Range;
use vstd::prelude::*;

verus! {

/// A color, each channel as the bit pattern of a 64-bit IEEE-754 number.
#[derive(Debug, Clone, Copy, PartialEq, Eq)]
pub struct Color {
    pub r: u64,
    pub g: u64,
    pub b: u64,
    pub a: u64,
}

/// What happens to a target when a pass begins.
#[derive(Debug, Clone, Copy, PartialEq, Eq)]
pub enum LoadOp<V> {
    /// The target is cleared to this value.
    Clear(V),
    /// The target keeps its contents.
    Load,
}

/// Which view of the target texture a pass renders to.
#[derive(Debug, Clone, Copy, PartialEq, Eq)]
pub enum RenderPassTargetTextureFormat {
    /// The view that the texture was registered with.
    UseExisting,
    /// A new view whose format is the sRGB form of the format of the texture.
    NewViewSrgb,
}

/// The color target of a pass.
#[derive(Debug, Clone, Copy, PartialEq, Eq)]
pub struct RenderPassTargetSpec {
    pub texture_id: TextureId,
    pub texture_format: RenderPassTargetTextureFormat,
    pub load_operation: LoadOp<Color>,
}

/// The depth target of a pass. A cleared depth is given as the bit pattern of
/// a 32-bit IEEE-754 number.
pub struct RenderPassDepthSpec<'a, D> {
    pub texture: &'a D,
    pub load_operation: LoadOp<u32>,
}

/// A vertex buffer of a pipeline step: a fixed buffer, or the vertex buffer of
/// the mesh that is being drawn.
pub enum RenderVertexBufferSpec<'a, B> {
    ModelMesh { slot: u32 },
    Fixed { slot: u32, buffer: &'a B },
}

/// What a bind-group binding of a pipeline step refers to: a fixed bind group,
/// or the bind group of the material of the mesh that is being drawn.
pub enum RenderBindGroupTargetSpec<'a, G> {
    Fixed(&'a G),
    ModelMaterial,
}

/// A bind-group binding of a pipeline step.
pub struct RenderBindGroupSpec<'a, G> {
    slot: u32,
    target: RenderBindGroupTargetSpec<'a, G>,
}

/// What a pipeline step draws.
pub enum RenderDrawSpec<'a, B, G> {
    /// Every mesh of a model, indexed, in the order of the meshes.
    Model { model: &'a Model<B, G>, instances: Range<u32> },
    /// One draw that is not indexed.
    Single { vertices: Range<u32>, instances: Range<u32> },
}

/// One pipeline step of a pass.
pub struct RenderPipelineSpec<'a, P, B, G> {
    pub pipeline: &'a P,
    pub vertex_buffers: Vec<RenderVertexBufferSpec<'a, B>>,
    pub bind_groups: Vec<RenderBindGroupSpec<'a, G>>,
    pub draw: RenderDrawSpec<'a, B, G>,
}

/// One render pass.
pub struct RenderPassSpec<'a, P, B, G, D> {
    pub label: Option<&'a str>,
    pub target_spec: RenderPassTargetSpec,
    pub depth_spec: Option<RenderPassDepthSpec<'a, D>>,
    pub pipelines: Vec<RenderPipelineSpec<'a, P, B, G>>,
}

/// The passes of one frame, in the order in which they run.
pub struct RenderPassSpecSet<'a, P, B, G, D> {
    pub render_passes: Vec<RenderPassSpec<'a, P, B, G, D>>,
}

/// A command inside a pass, with every reference resolved.
pub enum DrawCommand<'a, P, B, G> {
    SetPipeline(&'a P),
    SetVertexBuffer { slot: u32, buffer: &'a B },
    SetBindGroup { slot: u32, bind_group: &'a G },
    /// Binds an index buffer of 32-bit indices.
    SetIndexBuffer(&'a B),
    DrawIndexed { indices: Range<u32>, base_vertex: i32, instances: Range<u32> },
    Draw { vertices: Range<u32>, instances: Range<u32> },
}

/// A pass as the graphics device runs it: the GPU texture `T` to render to,
/// and the commands of the pass in their order.
pub struct ResolvedPass<'a, T, P, B, G, D> {
    pub label: Option<&'a str>,
    pub target: &'a T,
    pub view: RenderPassTargetTextureFormat,
    pub load_operation: LoadOp<Color>,
    pub depth: Option<(&'a D, LoadOp<u32>)>,
    pub commands: Vec<DrawCommand<'a, P, B, G>>,
}

/// Why a pipeline step did not resolve.
#[derive(Debug, Clone, Copy, PartialEq, Eq)]
pub enum DrawError {
    /// The step is a single draw, yet it refers to the mesh that is being
    /// drawn.
    NoCurrentMesh,
    /// Mesh `mesh` of the model names a material that the model does not have.
    MaterialNotFound { mesh: usize },
}

/// Why a pass did not resolve.
#[derive(Debug, Clone, Copy, PartialEq, Eq)]
pub enum PassError {
    /// The target of the pass is not a registered texture.
    TargetNotFound,
    /// Step `pipeline` of the pass did not resolve.
    Draw { pipeline: usize, error: DrawError },
}

/// Why a render-pass description was not turned into commands: pass `pass`
/// did not resolve.
#[derive(Debug, Clone, Copy, PartialEq, Eq)]
pub struct RenderError {
    pub pass: usize,
    pub error: PassError,
}

/// The command that binds a vertex buffer while `mesh` is being drawn, or
/// nothing where the buffer of the current mesh is asked for and there is no
/// such mesh.
pub open spec fn vertex_buffer_command<'a, P, B, G>(
    spec: RenderVertexBufferSpec<'a, B>,
    mesh: Option<&'a Mesh<B>>,
) -> Option<DrawCommand<'a, P, B, G>> {
    match spec {
        RenderVertexBufferSpec::ModelMesh { slot } => match mesh {
            Some(mesh) => Some(DrawCommand::SetVertexBuffer { slot, buffer: &mesh.vertex_buffer }),
            None => None,
        },
        RenderVertexBufferSpec::Fixed { slot, buffer } => Some(
            DrawCommand::SetVertexBuffer { slot, buffer },
        ),
    }
}

/// The command that binds a bind group while a mesh of a model is being
/// drawn, or nothing where the material of the current mesh is asked for and
/// there is no such mesh, or the model lacks the material.
pub open spec fn bind_group_command<'a, P, B, G>(
    spec: RenderBindGroupSpec<'a, G>,
    current: Option<(&'a Mesh<B>, &'a Model<B, G>)>,
) -> Option<DrawCommand<'a, P, B, G>> {
    match spec.spec_target() {
        RenderBindGroupTargetSpec::Fixed(bind_group) => Some(
            DrawCommand::SetBindGroup { slot: spec.spec_slot(), bind_group },
        ),
        RenderBindGroupTargetSpec::ModelMaterial => match current {
            Some((mesh, model)) => if mesh.material < model.materials.len() {
                Some(
                    DrawCommand::SetBindGroup {
                        slot: spec.spec_slot(),
                        bind_group: &model.materials[mesh.material as int].bind_group,
                    },
                )
            } else {
                None
            },
            None => None,
        },
    }
}

/// The commands that bind the vertex buffers in their order, or nothing where
/// one of them does not resolve.
pub open spec fn vertex_buffer_commands<'a, P, B, G>(
    specs: Seq<RenderVertexBufferSpec<'a, B>>,
    mesh: Option<&'a Mesh<B>>,
) -> Option<Seq<DrawCommand<'a, P, B, G>>>
    decreases specs.len(),
{
    if specs.len() == 0 {
        Some(Seq::empty())
    } else {
        match (
            vertex_buffer_commands::<P, B, G>(specs.drop_last(), mesh),
            vertex_buffer_command::<P, B, G>(specs.last(), mesh),
        ) {
            (Some(before), Some(command)) => Some(before.push(command)),
            _ => None,
        }
    }
}

/// The commands that bind the bind groups in their order, or nothing where one
/// of them does not resolve.
pub open spec fn bind_group_commands<'a, P, B, G>(
    specs: Seq<RenderBindGroupSpec<'a, G>>,
    current: Option<(&'a Mesh<B>, &'a Model<B, G>)>,
) -> Option<Seq<DrawCommand<'a, P, B, G>>>
    decreases specs.len(),
{
    if specs.len() == 0 {
        Some(Seq::empty())
    } else {
        match (
            bind_group_commands::<P, B, G>(specs.drop_last(), current),
            bind_group_command::<P, B, G>(specs.last(), current),
        ) {
            (Some(before), Some(command)) => Some(before.push(command)),
            _ => None,
        }
    }
}

/// The mesh that is being drawn, if one is.
pub open spec fn mesh_of<'a, B, G>(current: Option<(&'a Mesh<B>, &'a Model<B, G>)>) -> Option<
    &'a Mesh<B>,
> {
    match current {
        Some((mesh, _)) => Some(mesh),
        None => None,
    }
}

impl<'a, P, B, G> RenderPipelineSpec<'a, P, B, G> {
    /// The bindings of the step for one draw: the vertex buffers in their
    /// order, then the bind groups in theirs.
    pub open spec fn bindings(&self, current: Option<(&'a Mesh<B>, &'a Model<B, G>)>) -> Option<
        Seq<DrawCommand<'a, P, B, G>>,
    > {
        match (
            vertex_buffer_commands::<P, B, G>(self.vertex_buffers@, mesh_of(current)),
            bind_group_commands::<P, B, G>(self.bind_groups@, current),
        ) {
            (Some(buffers), Some(groups)) => Some(buffers + groups),
            _ => None,
        }
    }

    /// The commands that draw mesh `k` of `model`: its bindings, its index
    /// buffer, and one indexed draw over all its indices.
    pub open spec fn mesh_commands(
        &self,
        model: &'a Model<B, G>,
        instances: Range<u32>,
        k: int,
    ) -> Option<Seq<DrawCommand<'a, P, B, G>>> {
        let mesh = &model.meshes[k];
        match self.bindings(Some((mesh, model))) {
            Some(bindings) => Some(
                bindings.push(DrawCommand::SetIndexBuffer(&mesh.index_buffer)).push(
                    DrawCommand::DrawIndexed {
                        indices: Range { start: 0, end: mesh.num_elements },
                        base_vertex: 0,
                        instances: Range { start: instances.start, end: instances.end },
                    },
                ),
            ),
            None => None,
        }
    }

    /// The commands that draw the first `n` meshes of `model` in their order,
    /// or the index of the first mesh among them whose bindings do not
    /// resolve.
    pub open spec fn model_commands(
        &self,
        model: &'a Model<B, G>,
        instances: Range<u32>,
        n: int,
    ) -> Result<Seq<DrawCommand<'a, P, B, G>>, usize>
        decreases n,
    {
        if n <= 0 {
            Ok(Seq::empty())
        } else {
            match self.model_commands(model, instances, n - 1) {
                Ok(before) => match self.mesh_commands(model, instances, n - 1) {
                    Some(commands) => Ok(before + commands),
                    None => Err((n - 1) as usize),
                },
                Err(mesh) => Err(mesh),
            }
        }
    }

    /// The commands of the step: the pipeline is bound first, then comes what
    /// the step draws.
    pub open spec fn commands(&self) -> Result<Seq<DrawCommand<'a, P, B, G>>, DrawError> {
        let bind = seq![DrawCommand::SetPipeline(self.pipeline)];
        match self.draw {
            RenderDrawSpec::Model { model, instances } => match self.model_commands(
                model,
                instances,
                model.meshes.len() as int,
            ) {
                Ok(commands) => Ok(bind + commands),
                Err(mesh) => Err(DrawError::MaterialNotFound { mesh }),
            },
            RenderDrawSpec::Single { vertices, instances } => match self.bindings(None) {
                Some(bindings) => Ok(
                    (bind + bindings).push(
                        DrawCommand::Draw {
                            vertices: Range { start: vertices.start, end: vertices.end },
                            instances: Range { start: instances.start, end: instances.end },
                        },
                    ),
                ),
                None => Err(DrawError::NoCurrentMesh),
            },
        }
    }
}

impl<'a, B> RenderVertexBufferSpec<'a, B> {
    pub fn new_model_mesh(slot: u32) -> (spec: Self)
        ensures
            spec == (Self::ModelMesh { slot }),
    {
        Self::ModelMesh { slot }
    }

    pub fn new_fixed(slot: u32, buffer: &'a B) -> (spec: Self)
        ensures
            spec == (Self::Fixed { slot, buffer }),
    {
        Self::Fixed { slot, buffer }
    }

    /// The command that binds the buffer while `current_mesh` is being drawn.
    pub fn set<P, G>(&self, current_mesh: Option<&'a Mesh<B>>) -> (command: Option<
        DrawCommand<'a, P, B, G>,
    >)
        ensures
            command == vertex_buffer_command::<P, B, G>(*self, current_mesh),
    {
        match self {
            Self::ModelMesh { slot } => match current_mesh {
                Some(mesh) => Some(
                    DrawCommand::SetVertexBuffer { slot: *slot, buffer: &mesh.vertex_buffer },
                ),
                None => None,
            },
            Self::Fixed { slot, buffer } => Some(
                DrawCommand::SetVertexBuffer { slot: *slot, buffer: *buffer },
            ),
        }
    }
}

impl<'a, G> RenderBindGroupSpec<'a, G> {
    pub closed spec fn spec_slot(&self) -> u32 {
        self.slot
    }

    pub closed spec fn spec_target(&self) -> RenderBindGroupTargetSpec<'a, G> {
        self.target
    }

    pub fn new_fixed(slot: u32, target: &'a G) -> (spec: Self)
        ensures
            spec.spec_slot() == slot,
            spec.spec_target() == RenderBindGroupTargetSpec::Fixed(target),
    {
        Self { slot, target: RenderBindGroupTargetSpec::Fixed(target) }
    }

    pub fn new_model_material(slot: u32) -> (spec: Self)
        ensures
            spec.spec_slot() == slot,
            spec.spec_target() == RenderBindGroupTargetSpec::<G>::ModelMaterial,
    {
        Self { slot, target: RenderBindGroupTargetSpec::ModelMaterial }
    }

    /// The command that binds the group while a mesh of a model is being
    /// drawn.
    pub fn set<P, B>(&self, current: Option<(&'a Mesh<B>, &'a Model<B, G>)>) -> (command: Option<
        DrawCommand<'a, P, B, G>,
    >)
        ensures
            command == bind_group_command::<P, B, G>(*self, current),
    {
        match self.target {
            RenderBindGroupTargetSpec::Fixed(bind_group) => Some(
                DrawCommand::SetBindGroup { slot: self.slot, bind_group },
            ),
            RenderBindGroupTargetSpec::ModelMaterial => match current {
                Some((mesh, model)) => if mesh.material < model.materials.len() {
                    Some(
                        DrawCommand::SetBindGroup {
                            slot: self.slot,
                            bind_group: &model.materials[mesh.material].bind_group,
                        },
                    )
                } else {
                    None
                },
                None => None,
            },
        }
    }
}

impl<'a, P, B, G> RenderPipelineSpec<'a, P, B, G> {
    /// Appends the bindings of the step for one draw to `out`. Says whether
    /// all of them resolved; where one did not, `out` holds the bindings
    /// before it.
    fn bind(
        &self,
        out: &mut Vec<DrawCommand<'a, P, B, G>>,
        current: Option<(&'a Mesh<B>, &'a Model<B, G>)>,
    ) -> (bound: bool)
        ensures
            bound == self.bindings(current).is_some(),
            bound ==> final(out)@ == old(out)@ + self.bindings(current).unwrap(),
    {
        let mesh = match current {
            Some((mesh, _)) => Some(mesh),
            None => None,
        };
        let mut i: usize = 0;
        while i < self.vertex_buffers.len()
            invariant
                i <= self.vertex_buffers.len(),
                mesh == mesh_of(current),
                vertex_buffer_commands::<P, B, G>(
                    self.vertex_buffers@.take(i as int),
                    mesh,
                ).is_some(),
                out@ == old(out)@ + vertex_buffer_commands::<P, B, G>(
                    self.vertex_buffers@.take(i as int),
                    mesh,
                ).unwrap(),
            decreases self.vertex_buffers.len() - i,
        {
            let ghost next = self.vertex_buffers@.take(i + 1);
            proof {
                assert(next.drop_last() =~= self.vertex_buffers@.take(i as int));
                assert(next.last() == self.vertex_buffers@[i as int]);
            }
            match self.vertex_buffers[i].set(mesh) {
                Some(command) => {
                    out.push(command);
                },
                None => {
                    proof {
                        assert(vertex_buffer_commands::<P, B, G>(next, mesh).is_none());
                        lemma_vertex_buffers_stay_unresolved::<P, B, G>(
                            self.vertex_buffers@,
                            mesh,
                            i + 1,
                        );
                    }
                    return false;
                },
            }
            proof {
                assert(out@ =~= old(out)@ + vertex_buffer_commands::<P, B, G>(next, mesh).unwrap());
            }
            i += 1;
        }
        proof {
            assert(self.vertex_buffers@.take(i as int) =~= self.vertex_buffers@);
        }
        let ghost buffers = vertex_buffer_commands::<P, B, G>(self.vertex_buffers@, mesh).unwrap();
        let mut j: usize = 0;
        while j < self.bind_groups.len()
            invariant
                j <= self.bind_groups.len(),
                mesh == mesh_of(current),
                vertex_buffer_commands::<P, B, G>(self.vertex_buffers@, mesh) == Some(buffers),
                bind_group_commands::<P, B, G>(self.bind_groups@.take(j as int), current).is_some(),
                out@ == old(out)@ + buffers + bind_group_commands::<P, B, G>(
                    self.bind_groups@.take(j as int),
                    current,
                ).unwrap(),
            decreases self.bind_groups.len() - j,
        {
            let ghost next = self.bind_groups@.take(j + 1);
            proof {
                assert(next.drop_last() =~= self.bind_groups@.take(j as int));
                assert(next.last() == self.bind_groups@[j as int]);
            }
            match self.bind_groups[j].set(current) {
                Some(command) => {
                    out.push(command);
                },
                None => {
                    proof {
                        assert(bind_group_commands::<P, B, G>(next, current).is_none());
                        lemma_bind_groups_stay_unresolved::<P, B, G>(
                            self.bind_groups@,
                            current,
                            j + 1,
                        );
                    }
                    return false;
                },
            }
            proof {
                assert(out@ =~= old(out)@ + buffers + bind_group_commands::<P, B, G>(
                    next,
                    current,
                ).unwrap());
            }
            j += 1;
        }
        proof {
            assert(self.bind_groups@.take(j as int) =~= self.bind_groups@);
            assert(out@ =~= old(out)@ + self.bindings(current).unwrap());
        }
        true
    }

    /// The commands of the step, in the order in which the graphics device
    /// runs them.
    pub fn draw(&self) -> (r: Result<Vec<DrawCommand<'a, P, B, G>>, DrawError>)
        ensures
            match r {
                Ok(commands) => self.commands() == Ok::<Seq<DrawCommand<'a, P, B, G>>, DrawError>(
                    commands@,
                ),
                Err(error) => self.commands() == Err::<Seq<DrawCommand<'a, P, B, G>>, DrawError>(
                    error,
                ),
            },
    {
        let mut out: Vec<DrawCommand<'a, P, B, G>> = Vec::new();
        out.push(DrawCommand::SetPipeline(self.pipeline));
        let ghost bind = seq![DrawCommand::<'a, P, B, G>::SetPipeline(self.pipeline)];
        assert(out@ =~= bind);
        match &self.draw {
            RenderDrawSpec::Model { model, instances } => {
                let model: &'a Model<B, G> = *model;
                let mut k: usize = 0;
                while k < model.meshes.len()
                    invariant
                        k <= model.meshes.len(),
                        self.draw == (RenderDrawSpec::Model { model, instances: *instances }),
                        self.model_commands(model, *instances, k as int).is_ok(),
                        out@ == bind + self.model_commands(model, *instances, k as int).unwrap(),
                    decreases model.meshes.len() - k,
                {
                    let mesh = &model.meshes[k];
                    let ghost before = out@;
                    if !self.bind(&mut out, Some((mesh, model))) {
                        proof {
                            self.lemma_model_stays_unresolved(
                                model,
                                *instances,
                                k as int,
                                model.meshes.len() as int,
                            );
                        }
                        return Err(DrawError::MaterialNotFound { mesh: k });
                    }
                    out.push(DrawCommand::SetIndexBuffer(&mesh.index_buffer));
                    out.push(
                        DrawCommand::DrawIndexed {
                            indices: 0..mesh.num_elements,
                            base_vertex: 0,
                            instances: instances.start..instances.end,
                        },
                    );
                    proof {
                        assert(out@ =~= before + self.mesh_commands(
                            model,
                            *instances,
                            k as int,
                        ).unwrap());
                        assert(out@ =~= bind + self.model_commands(
                            model,
                            *instances,
                            k + 1,
                        ).unwrap());
                    }
                    k += 1;
                }
                Ok(out)
            },
            RenderDrawSpec::Single { vertices, instances } => {
                if !self.bind(&mut out, None) {
                    return Err(DrawError::NoCurrentMesh);
                }
                out.push(
                    DrawCommand::Draw {
                        vertices: vertices.start..vertices.end,
                        instances: instances.start..instances.end,
                    },
                );
                Ok(out)
            },
        }
    }

    /// Once the bindings of one mesh do not resolve, the meshes after it do
    /// not change which mesh is reported.
    proof fn lemma_model_stays_unresolved(
        &self,
        model: &'a Model<B, G>,
        instances: Range<u32>,
        k: int,
        n: int,
    )
        requires
            0 <= k < n,
            self.model_commands(model, instances, k).is_ok(),
            self.mesh_commands(model, instances, k).is_none(),
        ensures
            self.model_commands(model, instances, n) == Err::<
                Seq<DrawCommand<'a, P, B, G>>,
                usize,
            >(k as usize),
        decreases n - k,
    {
        if n > k + 1 {
            self.lemma_model_stays_unresolved(model, instances, k, n - 1);
        }
    }
}

/// Once a vertex buffer does not resolve, the buffers after it do not help.
proof fn lemma_vertex_buffers_stay_unresolved<'a, P, B, G>(
    specs: Seq<RenderVertexBufferSpec<'a, B>>,
    mesh: Option<&'a Mesh<B>>,
    n: int,
)
    requires
        0 <= n <= specs.len(),
        vertex_buffer_commands::<P, B, G>(specs.take(n), mesh).is_none(),
    ensures
        vertex_buffer_commands::<P, B, G>(specs, mesh).is_none(),
    decreases specs.len() - n,
{
    if n < specs.len() {
        assert(specs.take(n + 1).drop_last() =~= specs.take(n));
        lemma_vertex_buffers_stay_unresolved::<P, B, G>(specs, mesh, n + 1);
    } else {
        assert(specs.take(n) =~= specs);
    }
}

/// Once a bind group does not resolve, the bind groups after it do not help.
proof fn lemma_bind_groups_stay_unresolved<'a, P, B, G>(
    specs: Seq<RenderBindGroupSpec<'a, G>>,
    current: Option<(&'a Mesh<B>, &'a Model<B, G>)>,
    n: int,
)
    requires
        0 <= n <= specs.len(),
        bind_group_commands::<P, B, G>(specs.take(n), current).is_none(),
    ensures
        bind_group_commands::<P, B, G>(specs, current).is_none(),
    decreases specs.len() - n,
{
    if n < specs.len() {
        assert(specs.take(n + 1).drop_last() =~= specs.take(n));
        lemma_bind_groups_stay_unresolved::<P, B, G>(specs, current, n + 1);
    } else {
        assert(specs.take(n) =~= specs);
    }
}

/// The depth target of a resolved pass.
pub open spec fn depth_of<'a, D>(spec: Option<RenderPassDepthSpec<'a, D>>) -> Option<
    (&'a D, LoadOp<u32>),
> {
    match spec {
        Some(depth) => Some((depth.texture, depth.load_operation)),
        None => None,
    }
}

impl<'a, P, B, G, D> RenderPassSpec<'a, P, B, G, D> {
    /// The commands of the first `n` steps of the pass, step after step, or
    /// the error of the first step among them that does not resolve.
    pub open spec fn draws(&self, n: int) -> Result<Seq<DrawCommand<'a, P, B, G>>, PassError>
        decreases n,
    {
        if n <= 0 {
            Ok(Seq::empty())
        } else {
            match self.draws(n - 1) {
                Ok(before) => match self.pipelines[n - 1].commands() {
                    Ok(commands) => Ok(before + commands),
                    Err(error) => Err(PassError::Draw { pipeline: (n - 1) as usize, error }),
                },
                Err(error) => Err(error),
            }
        }
    }

    /// What the pass is refused with, if it is: a target that is not
    /// registered counts first, then the first step that does not resolve.
    pub open spec fn error<T>(&self, textures: Map<Handle, TextureEntry<T>>) -> Option<PassError> {
        if !textures.contains_key(self.target_spec.texture_id.handle()) {
            Some(PassError::TargetNotFound)
        } else {
            match self.draws(self.pipelines.len() as int) {
                Ok(_) => None,
                Err(error) => Some(error),
            }
        }
    }

    /// Whether `out` is this pass with its references resolved: the target
    /// is the GPU texture that the registry holds for the handle, and the
    /// commands are those of the steps in their order.
    pub open spec fn resolves_to<T>(
        &self,
        textures: Map<Handle, TextureEntry<T>>,
        out: ResolvedPass<'a, T, P, B, G, D>,
    ) -> bool {
        &&& self.error(textures).is_none()
        &&& out.label == self.label
        &&& *out.target == textures[self.target_spec.texture_id.handle()].spec_texture()
        &&& out.view == self.target_spec.texture_format
        &&& out.load_operation == self.target_spec.load_operation
        &&& out.depth == depth_of(self.depth_spec)
        &&& self.draws(self.pipelines.len() as int) == Ok::<
            Seq<DrawCommand<'a, P, B, G>>,
            PassError,
        >(out.commands@)
    }

    /// Resolves the pass against the registry.
    pub fn submit<T, UB, UG>(&self, project: &'a Project<T, UB, UG>) -> (r: Result<
        ResolvedPass<'a, T, P, B, G, D>,
        PassError,
    >)
        requires
            project.wf(),
        ensures
            match r {
                Ok(out) => self.resolves_to(project.textures(), out),
                Err(error) => self.error(project.textures()) == Some(error),
            },
    {
        let target = match project.get_texture(self.target_spec.texture_id) {
            Some(entry) => entry.texture(),
            None => {
                return Err(PassError::TargetNotFound);
            },
        };
        let depth = match &self.depth_spec {
            Some(depth) => Some((depth.texture, depth.load_operation)),
            None => None,
        };
        let mut commands: Vec<DrawCommand<'a, P, B, G>> = Vec::new();
        let mut i: usize = 0;
        while i < self.pipelines.len()
            invariant
                i <= self.pipelines.len(),
                project.textures().contains_key(self.target_spec.texture_id.handle()),
                self.draws(i as int) == Ok::<Seq<DrawCommand<'a, P, B, G>>, PassError>(commands@),
            decreases self.pipelines.len() - i,
        {
            match self.pipelines[i].draw() {
                Ok(mut step) => {
                    let ghost before = commands@;
                    let ghost added = step@;
                    commands.append(&mut step);
                    assert(commands@ =~= before + added);
                },
                Err(error) => {
                    let error = PassError::Draw { pipeline: i, error };
                    proof {
                        assert(self.draws(i + 1) == Err::<Seq<DrawCommand<'a, P, B, G>>, PassError>(
                            error,
                        ));
                        self.lemma_draws_stay_refused(i + 1, self.pipelines.len() as int);
                    }
                    return Err(error);
                },
            }
            i += 1;
        }
        Ok(
            ResolvedPass {
                label: self.label,
                target,
                view: self.target_spec.texture_format,
                load_operation: self.target_spec.load_operation,
                depth,
                commands,
            },
        )
    }

    /// Once a step does not resolve, the steps after it do not change the
    /// error.
    proof fn lemma_draws_stay_refused(&self, k: int, n: int)
        requires
            0 <= k <= n,
            self.draws(k).is_err(),
        ensures
            self.draws(n) == self.draws(k),
        decreases n - k,
    {
        if n > k {
            self.lemma_draws_stay_refused(k, n - 1);
        }
    }
}

impl<'a, P, B, G, D> RenderPassSpecSet<'a, P, B, G, D> {
    /// Whether pass `i` is the first pass that is refused.
    pub open spec fn first_refused<T>(&self, textures: Map<Handle, TextureEntry<T>>, i: int) -> bool {
        &&& 0 <= i < self.render_passes.len()
        &&& self.render_passes[i].error(textures).is_some()
        &&& forall|k: int|
            0 <= k < i ==> (#[trigger] self.render_passes[k]).error(textures).is_none()
    }

    /// Resolves the passes of a frame against the registry. The result holds
    /// one resolved pass for every pass of the description, in the same
    /// order; the graphics device runs them one after the other. Where a pass
    /// does not resolve, the error of the first such pass comes back.
    pub fn submit<T, UB, UG>(&self, project: &'a Project<T, UB, UG>) -> (r: Result<
        Vec<ResolvedPass<'a, T, P, B, G, D>>,
        RenderError,
    >)
        requires
            project.wf(),
        ensures
            match r {
                Ok(passes) => {
                    &&& passes.len() == self.render_passes.len()
                    &&& forall|i: int|
                        0 <= i < passes.len() ==> (#[trigger] self.render_passes[i]).resolves_to(
                            project.textures(),
                            passes[i],
                        )
                },
                Err(error) => self.first_refused(project.textures(), error.pass as int)
                    && self.render_passes[error.pass as int].error(project.textures()) == Some(
                    error.error,
                ),
            },
    {
        let mut passes: Vec<ResolvedPass<'a, T, P, B, G, D>> = Vec::new();
        let mut i: usize = 0;
        while i < self.render_passes.len()
            invariant
                i <= self.render_passes.len(),
                project.wf(),
                passes.len() == i,
                forall|k: int|
                    0 <= k < i ==> (#[trigger] self.render_passes[k]).resolves_to(
                        project.textures(),
                        passes[k],
                    ),
            decreases self.render_passes.len() - i,
        {
            match self.render_passes[i].submit(project) {
                Ok(pass) => {
                    passes.push(pass);
                },
                Err(error) => {
                    assert(self.first_refused(project.textures(), i as int));
                    return Err(RenderError { pass: i, error });
                },
            }
            i += 1;
        }
        Ok(passes)
    }
}

} // verus!
