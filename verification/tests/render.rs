use scene_registry::model::{get_or_default, Material, Mesh, Model};
use scene_registry::project::Project;
use scene_registry::render::{
    Color, DrawCommand, DrawError, LoadOp, PassError, RenderBindGroupSpec, RenderDrawSpec,
    RenderError,
    RenderPassDepthSpec, RenderPassSpec, RenderPassSpecSet, RenderPassTargetSpec,
    RenderPassTargetTextureFormat, RenderPipelineSpec, RenderVertexBufferSpec,
};
use scene_registry::size::Size2d;
use scene_registry::texture::{InspectorTextureId, TextureId};

type TestProject = Project<&'static str, &'static str, &'static str>;
type Step<'a> = RenderPipelineSpec<'a, &'static str, &'static str, &'static str>;
type Pass<'a> = RenderPassSpec<'a, &'static str, &'static str, &'static str, &'static str>;
type Command<'a> = DrawCommand<'a, &'static str, &'static str, &'static str>;

fn black() -> Color {
    Color { r: 0f64.to_bits(), g: 0f64.to_bits(), b: 0f64.to_bits(), a: 1f64.to_bits() }
}

fn text(command: &Command) -> String {
    match command {
        DrawCommand::SetPipeline(p) => format!("pipeline {p}"),
        DrawCommand::SetVertexBuffer { slot, buffer } => format!("vertex {slot} {buffer}"),
        DrawCommand::SetBindGroup { slot, bind_group } => format!("group {slot} {bind_group}"),
        DrawCommand::SetIndexBuffer(b) => format!("index {b}"),
        DrawCommand::DrawIndexed { indices, base_vertex, instances } => format!(
            "draw_indexed {}..{} {} {}..{}",
            indices.start, indices.end, base_vertex, instances.start, instances.end
        ),
        DrawCommand::Draw { vertices, instances } => format!(
            "draw {}..{} {}..{}",
            vertices.start, vertices.end, instances.start, instances.end
        ),
    }
}

fn texts(commands: &[Command]) -> Vec<String> {
    commands.iter().map(text).collect()
}

fn two_mesh_model() -> Model<&'static str, &'static str> {
    Model {
        meshes: vec![
            Mesh { vertex_buffer: "vb-0", index_buffer: "ib-0", num_elements: 36, material: 1 },
            Mesh { vertex_buffer: "vb-1", index_buffer: "ib-1", num_elements: 6, material: 0 },
        ],
        materials: vec![Material { bind_group: "mat-0" }, Material { bind_group: "mat-1" }],
    }
}

fn target(texture_id: TextureId, texture_format: RenderPassTargetTextureFormat) -> RenderPassTargetSpec {
    RenderPassTargetSpec { texture_id, texture_format, load_operation: LoadOp::Clear(black()) }
}

#[test]
fn model_draw_resolves_every_late_bound_reference_per_mesh() {
    let model = two_mesh_model();
    let step: Step = RenderPipelineSpec {
        pipeline: &"opaque",
        vertex_buffers: vec![
            RenderVertexBufferSpec::new_model_mesh(0),
            RenderVertexBufferSpec::new_fixed(1, &"instances"),
        ],
        bind_groups: vec![
            RenderBindGroupSpec::new_model_material(0),
            RenderBindGroupSpec::new_fixed(1, &"camera"),
        ],
        draw: RenderDrawSpec::Model { model: &model, instances: 0..3 },
    };
    let commands = step.draw().unwrap();
    assert_eq!(
        texts(&commands),
        vec![
            "pipeline opaque",
            "vertex 0 vb-0",
            "vertex 1 instances",
            "group 0 mat-1",
            "group 1 camera",
            "index ib-0",
            "draw_indexed 0..36 0 0..3",
            "vertex 0 vb-1",
            "vertex 1 instances",
            "group 0 mat-0",
            "group 1 camera",
            "index ib-1",
            "draw_indexed 0..6 0 0..3",
        ]
    );
}

#[test]
fn single_draw_resolves_fixed_references_only() {
    let step: Step = RenderPipelineSpec {
        pipeline: &"post",
        vertex_buffers: vec![RenderVertexBufferSpec::new_fixed(0, &"quad")],
        bind_groups: vec![RenderBindGroupSpec::new_fixed(0, &"hdr")],
        draw: RenderDrawSpec::Single { vertices: 0..3, instances: 0..1 },
    };
    assert_eq!(
        texts(&step.draw().unwrap()),
        vec!["pipeline post", "vertex 0 quad", "group 0 hdr", "draw 0..3 0..1"]
    );
}

#[test]
fn single_draw_without_bindings_binds_the_pipeline_and_draws() {
    let step: Step = RenderPipelineSpec {
        pipeline: &"sky",
        vertex_buffers: vec![],
        bind_groups: vec![],
        draw: RenderDrawSpec::Single { vertices: 0..3, instances: 0..1 },
    };
    assert_eq!(texts(&step.draw().unwrap()), vec!["pipeline sky", "draw 0..3 0..1"]);
}

#[test]
fn model_without_meshes_only_binds_the_pipeline() {
    let model: Model<&'static str, &'static str> = Model { meshes: vec![], materials: vec![] };
    let step: Step = RenderPipelineSpec {
        pipeline: &"opaque",
        vertex_buffers: vec![RenderVertexBufferSpec::new_model_mesh(0)],
        bind_groups: vec![RenderBindGroupSpec::new_model_material(0)],
        draw: RenderDrawSpec::Model { model: &model, instances: 0..1 },
    };
    assert_eq!(texts(&step.draw().unwrap()), vec!["pipeline opaque"]);
}

#[test]
fn late_bound_reference_in_a_single_draw_is_refused() {
    let with_buffer: Step = RenderPipelineSpec {
        pipeline: &"post",
        vertex_buffers: vec![RenderVertexBufferSpec::new_model_mesh(0)],
        bind_groups: vec![],
        draw: RenderDrawSpec::Single { vertices: 0..3, instances: 0..1 },
    };
    assert_eq!(with_buffer.draw().err(), Some(DrawError::NoCurrentMesh));
    let with_group: Step = RenderPipelineSpec {
        pipeline: &"post",
        vertex_buffers: vec![RenderVertexBufferSpec::new_fixed(0, &"quad")],
        bind_groups: vec![RenderBindGroupSpec::new_model_material(0)],
        draw: RenderDrawSpec::Single { vertices: 0..3, instances: 0..1 },
    };
    assert_eq!(with_group.draw().err(), Some(DrawError::NoCurrentMesh));
}

#[test]
fn missing_material_is_refused_with_the_mesh() {
    let mut model = two_mesh_model();
    model.meshes[1].material = 2;
    let step: Step = RenderPipelineSpec {
        pipeline: &"opaque",
        vertex_buffers: vec![RenderVertexBufferSpec::new_model_mesh(0)],
        bind_groups: vec![RenderBindGroupSpec::new_model_material(0)],
        draw: RenderDrawSpec::Model { model: &model, instances: 0..1 },
    };
    assert_eq!(step.draw().err(), Some(DrawError::MaterialNotFound { mesh: 1 }));
    // Without a late-bound material the same model draws.
    let fixed_only: Step = RenderPipelineSpec {
        pipeline: &"opaque",
        vertex_buffers: vec![RenderVertexBufferSpec::new_model_mesh(0)],
        bind_groups: vec![RenderBindGroupSpec::new_fixed(0, &"camera")],
        draw: RenderDrawSpec::Model { model: &model, instances: 0..1 },
    };
    assert_eq!(fixed_only.draw().unwrap().len(), 1 + 2 * 4);
}

#[test]
fn set_resolves_against_the_current_mesh() {
    let model = two_mesh_model();
    let mesh = &model.meshes[0];
    let late: RenderVertexBufferSpec<&'static str> = RenderVertexBufferSpec::new_model_mesh(2);
    let command: Option<Command> = late.set(Some(mesh));
    assert_eq!(command.as_ref().map(text), Some(String::from("vertex 2 vb-0")));
    let command: Option<Command> = late.set(None);
    assert!(command.is_none());
    let material: RenderBindGroupSpec<&'static str> = RenderBindGroupSpec::new_model_material(1);
    let command: Option<Command> = material.set(Some((mesh, &model)));
    assert_eq!(command.as_ref().map(text), Some(String::from("group 1 mat-1")));
    let command: Option<Command> = material.set(None);
    assert!(command.is_none());
    let fixed: RenderBindGroupSpec<&'static str> = RenderBindGroupSpec::new_fixed(4, &"camera");
    let command: Option<Command> = fixed.set(None);
    assert_eq!(command.as_ref().map(text), Some(String::from("group 4 camera")));
}

#[test]
fn two_passes_run_in_the_order_of_the_description() {
    let mut project = TestProject::new();
    let hdr = project.register_texture("hdr", "hdr-texture", InspectorTextureId::User(1), Size2d::new(64, 64));
    let screen = project.register_texture("screen", "screen-texture", InspectorTextureId::User(2), Size2d::new(64, 64));
    let model = two_mesh_model();
    let depth = "depth-view";
    let scene_pass: Pass = RenderPassSpec {
        label: Some("scene"),
        target_spec: target(hdr, RenderPassTargetTextureFormat::UseExisting),
        depth_spec: Some(RenderPassDepthSpec { texture: &depth, load_operation: LoadOp::Clear(1f32.to_bits()) }),
        pipelines: vec![RenderPipelineSpec {
            pipeline: &"opaque",
            vertex_buffers: vec![RenderVertexBufferSpec::new_model_mesh(0)],
            bind_groups: vec![RenderBindGroupSpec::new_model_material(0)],
            draw: RenderDrawSpec::Model { model: &model, instances: 0..1 },
        }],
    };
    let post_pass: Pass = RenderPassSpec {
        label: None,
        target_spec: RenderPassTargetSpec {
            texture_id: screen,
            texture_format: RenderPassTargetTextureFormat::NewViewSrgb,
            load_operation: LoadOp::Load,
        },
        depth_spec: None,
        pipelines: vec![
            RenderPipelineSpec {
                pipeline: &"tonemap",
                vertex_buffers: vec![],
                bind_groups: vec![RenderBindGroupSpec::new_fixed(0, &"hdr-group")],
                draw: RenderDrawSpec::Single { vertices: 0..3, instances: 0..1 },
            },
            RenderPipelineSpec {
                pipeline: &"overlay",
                vertex_buffers: vec![],
                bind_groups: vec![],
                draw: RenderDrawSpec::Single { vertices: 0..6, instances: 0..2 },
            },
        ],
    };
    let set = RenderPassSpecSet { render_passes: vec![scene_pass, post_pass] };
    let passes = set.submit(&project).unwrap();
    assert_eq!(passes.len(), 2);

    assert_eq!(passes[0].label, Some("scene"));
    assert_eq!(*passes[0].target, "hdr-texture");
    assert_eq!(passes[0].view, RenderPassTargetTextureFormat::UseExisting);
    assert_eq!(passes[0].load_operation, LoadOp::Clear(black()));
    assert_eq!(passes[0].depth, Some((&"depth-view", LoadOp::Clear(1f32.to_bits()))));
    assert_eq!(
        texts(&passes[0].commands),
        vec![
            "pipeline opaque",
            "vertex 0 vb-0",
            "group 0 mat-1",
            "index ib-0",
            "draw_indexed 0..36 0 0..1",
            "vertex 0 vb-1",
            "group 0 mat-0",
            "index ib-1",
            "draw_indexed 0..6 0 0..1",
        ]
    );

    assert_eq!(passes[1].label, None);
    assert_eq!(*passes[1].target, "screen-texture");
    assert_eq!(passes[1].view, RenderPassTargetTextureFormat::NewViewSrgb);
    assert_eq!(passes[1].load_operation, LoadOp::Load);
    assert_eq!(passes[1].depth, None);
    assert_eq!(
        texts(&passes[1].commands),
        vec!["pipeline tonemap", "group 0 hdr-group", "draw 0..3 0..1", "pipeline overlay", "draw 0..6 0..2"]
    );

    // Submitting again gives the same passes in the same order.
    let again = set.submit(&project).unwrap();
    assert_eq!(again.len(), 2);
    assert_eq!(texts(&again[0].commands), texts(&passes[0].commands));
    assert_eq!(texts(&again[1].commands), texts(&passes[1].commands));
}

#[test]
fn pass_without_steps_resolves_to_a_pass_without_commands() {
    let mut project = TestProject::new();
    let screen = project.register_texture("screen", "tex", InspectorTextureId::User(2), Size2d::new(1, 1));
    let pass: Pass = RenderPassSpec {
        label: Some("clear"),
        target_spec: target(screen, RenderPassTargetTextureFormat::UseExisting),
        depth_spec: None,
        pipelines: vec![],
    };
    let resolved = pass.submit(&project).unwrap();
    assert!(resolved.commands.is_empty());
    assert_eq!(*resolved.target, "tex");
    let set: RenderPassSpecSet<&'static str, &'static str, &'static str, &'static str> =
        RenderPassSpecSet { render_passes: vec![] };
    assert!(set.submit(&project).unwrap().is_empty());
}

#[test]
fn unknown_target_is_refused_with_its_pass() {
    let mut project = TestProject::new();
    let screen = project.register_texture("screen", "tex", InspectorTextureId::User(2), Size2d::new(1, 1));
    let stranger = {
        let mut other = TestProject::new();
        other.register_texture("a", "x", InspectorTextureId::User(0), Size2d::new(1, 1));
        other.register_texture("b", "y", InspectorTextureId::User(0), Size2d::new(1, 1))
    };
    let good: Pass = RenderPassSpec {
        label: None,
        target_spec: target(screen, RenderPassTargetTextureFormat::UseExisting),
        depth_spec: None,
        pipelines: vec![],
    };
    let bad: Pass = RenderPassSpec {
        label: None,
        target_spec: target(stranger, RenderPassTargetTextureFormat::UseExisting),
        depth_spec: None,
        pipelines: vec![RenderPipelineSpec {
            pipeline: &"post",
            vertex_buffers: vec![RenderVertexBufferSpec::new_model_mesh(0)],
            bind_groups: vec![],
            draw: RenderDrawSpec::Single { vertices: 0..3, instances: 0..1 },
        }],
    };
    assert_eq!(bad.submit(&project).err(), Some(PassError::TargetNotFound));
    let set = RenderPassSpecSet { render_passes: vec![good, bad] };
    assert_eq!(
        set.submit(&project).err(),
        Some(RenderError { pass: 1, error: PassError::TargetNotFound })
    );
}

#[test]
fn first_step_that_does_not_resolve_decides_the_error() {
    let mut project = TestProject::new();
    let screen = project.register_texture("screen", "tex", InspectorTextureId::User(2), Size2d::new(1, 1));
    let mut model = two_mesh_model();
    model.materials.clear();
    let pass: Pass = RenderPassSpec {
        label: None,
        target_spec: target(screen, RenderPassTargetTextureFormat::UseExisting),
        depth_spec: None,
        pipelines: vec![
            RenderPipelineSpec {
                pipeline: &"fine",
                vertex_buffers: vec![],
                bind_groups: vec![],
                draw: RenderDrawSpec::Single { vertices: 0..3, instances: 0..1 },
            },
            RenderPipelineSpec {
                pipeline: &"materials",
                vertex_buffers: vec![],
                bind_groups: vec![RenderBindGroupSpec::new_model_material(0)],
                draw: RenderDrawSpec::Model { model: &model, instances: 0..1 },
            },
            RenderPipelineSpec {
                pipeline: &"late",
                vertex_buffers: vec![RenderVertexBufferSpec::new_model_mesh(0)],
                bind_groups: vec![],
                draw: RenderDrawSpec::Single { vertices: 0..3, instances: 0..1 },
            },
        ],
    };
    assert_eq!(
        pass.submit(&project).err(),
        Some(PassError::Draw { pipeline: 1, error: DrawError::MaterialNotFound { mesh: 0 } })
    );
    let set = RenderPassSpecSet { render_passes: vec![pass] };
    assert_eq!(
        set.submit(&project).err(),
        Some(RenderError {
            pass: 0,
            error: PassError::Draw { pipeline: 1, error: DrawError::MaterialNotFound { mesh: 0 } },
        })
    );
}

#[test]
fn get_or_default_reads_or_defaults() {
    let values = [1.5f32, 2.5, 3.5];
    assert_eq!(get_or_default(&values, 0), 1.5);
    assert_eq!(get_or_default(&values, 2), 3.5);
    assert_eq!(get_or_default(&values, 3), 0.0);
    let empty: [u32; 0] = [];
    assert_eq!(get_or_default(&empty, 0), 0);
    assert_eq!(get_or_default(&[7u8, 8], usize::MAX), 0);
}
