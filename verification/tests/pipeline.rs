use scene_registry::description::{
    position_of, Texture, BindGroupIdentifier, BindGroupIdentifierType, BindGroupLayoutKind,
    BindingProvider, CustomUniformType, PipelineError, RenderPipeline, ShaderIdentifier,
};

fn group(name: &str, index: u32, bind_group_type: BindGroupIdentifierType) -> (String, BindGroupIdentifier) {
    (name.to_string(), BindGroupIdentifier { index, bind_group_type })
}

fn pipeline(shader: &str, bind_groups: Vec<(String, BindGroupIdentifier)>) -> RenderPipeline {
    RenderPipeline {
        name: String::from("main"),
        shader: ShaderIdentifier { shader_name: shader.to_string() },
        bind_groups,
    }
}

fn names(list: &[&str]) -> Vec<String> {
    list.iter().map(|s| s.to_string()).collect()
}

fn texture(name: &str) -> BindGroupIdentifierType {
    BindGroupIdentifierType::Texture { texture_name: name.to_string() }
}

#[test]
fn plan_orders_bind_groups_by_set_index() {
    let description = pipeline(
        "lit",
        vec![
            group("time", 2, BindGroupIdentifierType::Time),
            group("albedo", 0, texture("brick")),
            group("tint", 3, BindGroupIdentifierType::Custom(CustomUniformType::Color)),
            group("camera", 1, BindGroupIdentifierType::Camera),
        ],
    );
    let plan = description
        .plan(&names(&["flat", "lit"]), &names(&["grass", "brick", "brick"]))
        .unwrap();
    assert_eq!(plan.shader, 1);
    assert_eq!(
        plan.layouts,
        vec![
            BindGroupLayoutKind::Texture,
            BindGroupLayoutKind::Uniform,
            BindGroupLayoutKind::Uniform,
            BindGroupLayoutKind::Uniform,
        ]
    );
    let listed: Vec<(&str, u32, BindingProvider)> = plan
        .bindings
        .iter()
        .map(|b| (b.name.as_str(), b.set, b.provider))
        .collect();
    assert_eq!(
        listed,
        vec![
            ("albedo", 0, BindingProvider::Texture(1)),
            ("camera", 1, BindingProvider::Camera),
            ("time", 2, BindingProvider::Time),
            ("tint", 3, BindingProvider::Custom(CustomUniformType::Color)),
        ]
    );
}

#[test]
fn plan_of_no_bind_groups_is_empty() {
    let plan = pipeline("lit", vec![]).plan(&names(&["lit"]), &names(&[])).unwrap();
    assert_eq!(plan.shader, 0);
    assert!(plan.layouts.is_empty());
    assert!(plan.bindings.is_empty());
}

#[test]
fn gap_in_the_set_indices_is_refused() {
    let description = pipeline(
        "lit",
        vec![
            group("time", 3, BindGroupIdentifierType::Time),
            group("camera", 0, BindGroupIdentifierType::Camera),
            group("tint", 1, BindGroupIdentifierType::Custom(CustomUniformType::Vec4)),
        ],
    );
    assert_eq!(
        description.plan(&names(&["lit"]), &names(&[])).err(),
        Some(PipelineError::NonContiguous { index: 3, expected: 2 })
    );
}

#[test]
fn set_indices_that_do_not_start_at_zero_are_refused() {
    let description = pipeline("lit", vec![group("camera", 1, BindGroupIdentifierType::Camera)]);
    assert_eq!(
        description.plan(&names(&["lit"]), &names(&[])).err(),
        Some(PipelineError::NonContiguous { index: 1, expected: 0 })
    );
}

#[test]
fn repeated_set_index_is_refused() {
    let description = pipeline(
        "lit",
        vec![
            group("camera", 0, BindGroupIdentifierType::Camera),
            group("time", 1, BindGroupIdentifierType::Time),
            group("matrix", 1, BindGroupIdentifierType::Custom(CustomUniformType::Mat4)),
        ],
    );
    assert_eq!(
        description.plan(&names(&["lit"]), &names(&[])).err(),
        Some(PipelineError::NonContiguous { index: 1, expected: 2 })
    );
}

#[test]
fn gap_counts_before_a_missing_shader_or_texture() {
    let description = pipeline("nowhere", vec![group("albedo", 5, texture("nothing"))]);
    assert_eq!(
        description.plan(&names(&["lit"]), &names(&[])).err(),
        Some(PipelineError::NonContiguous { index: 5, expected: 0 })
    );
}

#[test]
fn unknown_shader_is_refused() {
    let description = pipeline("nowhere", vec![group("albedo", 0, texture("nothing"))]);
    assert_eq!(
        description.plan(&names(&["lit", "flat"]), &names(&[])).err(),
        Some(PipelineError::ShaderNotFound)
    );
}

#[test]
fn first_unknown_texture_in_set_order_is_refused() {
    let description = pipeline(
        "lit",
        vec![
            group("c", 2, texture("missing-late")),
            group("a", 0, texture("brick")),
            group("b", 1, texture("missing-early")),
        ],
    );
    assert_eq!(
        description.plan(&names(&["lit"]), &names(&["brick"])).err(),
        Some(PipelineError::TextureNotFound { set: 1 })
    );
}

#[test]
fn position_of_finds_the_first_of_equal_names() {
    let list = names(&["a", "b", "a"]);
    assert_eq!(position_of(&list, &String::from("a")), Some(0));
    assert_eq!(position_of(&list, &String::from("b")), Some(1));
    assert_eq!(position_of(&list, &String::from("c")), None);
    assert_eq!(position_of(&names(&[]), &String::from("a")), None);
}

#[test]
fn texture_goes_by_its_name_or_its_path() {
    let named = Texture { name: Some(String::from("brick")), path: String::from("assets/brick.png") };
    assert_eq!(named.label(), "brick");
    let unnamed = Texture { name: None, path: String::from("assets/grass.png") };
    assert_eq!(unnamed.label(), "assets/grass.png");
}
