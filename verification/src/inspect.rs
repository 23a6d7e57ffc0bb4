//! What the inspector shows of the registry: its panes and the labels of
//! resources and fields.

use crate::bindgroup::{
    BindGroupId, BindGroupResource, SamplerBindingType, TextureViewDimension,
};
use crate::project::Project;
use crate::texture::TextureId;
use crate::uniform::{UniformFieldType, UniformId};
use vstd::prelude::*;
use vstd::string::StringExecFns;

verus! {

/// A pane of the application window.
#[derive(Debug)]
pub enum Pane {
    /// A view of a texture, if one was picked.
    Viewport { texture_id: Option<TextureId> },
    DeviceInfo,
    UniformInspector,
    TextureInspector,
}

/// A pane of the inspector.
#[derive(Debug, Clone, Copy, PartialEq, Eq)]
pub enum InspectorPane {
    Uniform(UniformId),
    BindGroup(BindGroupId),
}

/// The title of an inspector pane: the label of what it inspects, or nothing
/// where that is not registered.
pub open spec fn pane_title_text<T, B, G>(project: &Project<T, B, G>, pane: InspectorPane) -> Option<
    Seq<char>,
> {
    match pane {
        InspectorPane::Uniform(id) => if project.uniforms().contains_key(id.handle()) {
            Some(project.uniforms()[id.handle()].spec_label())
        } else {
            None
        },
        InspectorPane::BindGroup(id) => if project.bind_groups().contains_key(id.handle()) {
            Some(project.bind_groups()[id.handle()].spec_label())
        } else {
            None
        },
    }
}

/// The title of an inspector pane: the label of what it inspects, or nothing
/// where that is not registered.
pub fn pane_title<'a, T, B, G>(project: &'a Project<T, B, G>, pane: &InspectorPane) -> (title: Option<
    &'a str,
>)
    requires
        project.wf(),
    ensures
        match title {
            Some(title) => pane_title_text(project, *pane) == Some(title@),
            None => pane_title_text(project, *pane).is_none(),
        },
{
    match pane {
        InspectorPane::Uniform(id) => match project.get_uniform(*id) {
            Some(uniform) => Some(uniform.label()),
            None => None,
        },
        InspectorPane::BindGroup(id) => match project.get_bind_group(*id) {
            Some(group) => Some(group.label()),
            None => None,
        },
    }
}

/// The name of the kind of a bound resource.
pub open spec fn resource_label_text(resource: BindGroupResource) -> Seq<char> {
    match resource {
        BindGroupResource::Texture { .. } => "Texture"@,
        BindGroupResource::Sampler { .. } => "Sampler"@,
        BindGroupResource::Uniform(_) => "Uniform"@,
    }
}

/// The name of the kind of a bound resource.
pub fn resource_label(resource: BindGroupResource) -> (label: &'static str)
    ensures
        label@ == resource_label_text(resource),
{
    match resource {
        BindGroupResource::Texture { .. } => "Texture",
        BindGroupResource::Sampler { .. } => "Sampler",
        BindGroupResource::Uniform(_) => "Uniform",
    }
}

/// The name of the dimensions of a texture view.
pub open spec fn view_dimension_text(dimension: TextureViewDimension) -> Seq<char> {
    match dimension {
        TextureViewDimension::D1 => "D1"@,
        TextureViewDimension::D2 => "D2"@,
        TextureViewDimension::D2Array => "D2Array"@,
        TextureViewDimension::Cube => "Cube"@,
        TextureViewDimension::CubeArray => "CubeArray"@,
        TextureViewDimension::D3 => "D3"@,
    }
}

/// The name of the dimensions of a texture view.
pub fn view_dimension_label(dimension: TextureViewDimension) -> (label: &'static str)
    ensures
        label@ == view_dimension_text(dimension),
{
    match dimension {
        TextureViewDimension::D1 => "D1",
        TextureViewDimension::D2 => "D2",
        TextureViewDimension::D2Array => "D2Array",
        TextureViewDimension::Cube => "Cube",
        TextureViewDimension::CubeArray => "CubeArray",
        TextureViewDimension::D3 => "D3",
    }
}

/// The name of the way in which a sampler is bound.
pub open spec fn sampler_binding_text(ty: SamplerBindingType) -> Seq<char> {
    match ty {
        SamplerBindingType::Filtering => "Filtering"@,
        SamplerBindingType::NonFiltering => "NonFiltering"@,
        SamplerBindingType::Comparison => "Comparison"@,
    }
}

/// The name of the way in which a sampler is bound.
pub fn sampler_binding_label(ty: SamplerBindingType) -> (label: &'static str)
    ensures
        label@ == sampler_binding_text(ty),
{
    match ty {
        SamplerBindingType::Filtering => "Filtering",
        SamplerBindingType::NonFiltering => "NonFiltering",
        SamplerBindingType::Comparison => "Comparison",
    }
}

/// The name of the texture that `id` refers to, or a note that it is missing.
pub open spec fn texture_name_text<T, B, G>(project: &Project<T, B, G>, id: TextureId) -> Seq<char> {
    if project.textures().contains_key(id.handle()) {
        project.textures()[id.handle()].spec_name()
    } else {
        "missing texture"@
    }
}

/// The line that describes a bound resource: its kind, the name of what it
/// refers to, and how it is bound.
pub open spec fn resource_detail_text<T, B, G>(
    project: &Project<T, B, G>,
    resource: BindGroupResource,
) -> Seq<char> {
    match resource {
        BindGroupResource::Texture { texture_id, view_dimension } => "texture: "@
            + texture_name_text(project, texture_id) + ", view: "@ + view_dimension_text(
            view_dimension,
        ),
        BindGroupResource::Sampler { texture_id, sampler_binding_type } => "sampler: "@
            + texture_name_text(project, texture_id) + ", type: "@ + sampler_binding_text(
            sampler_binding_type,
        ),
        BindGroupResource::Uniform(uniform_id) => "uniform: "@ + (if project.uniforms().contains_key(
            uniform_id.handle(),
        ) {
            project.uniforms()[uniform_id.handle()].spec_label()
        } else {
            "missing uniform"@
        }),
    }
}

/// The line that describes a bound resource: its kind, the name of what it
/// refers to, and how it is bound.
pub fn resource_detail_label<T, B, G>(project: &Project<T, B, G>, resource: BindGroupResource) -> (label:
    String)
    requires
        project.wf(),
    ensures
        label@ == resource_detail_text(project, resource),
{
    match resource {
        BindGroupResource::Texture { texture_id, view_dimension } => {
            let texture_name = match project.get_texture(texture_id) {
                Some(texture) => texture.name(),
                None => "missing texture",
            };
            let mut label = "texture: ".to_owned();
            label.append(texture_name);
            label.append(", view: ");
            label.append(view_dimension_label(view_dimension));
            label
        },
        BindGroupResource::Sampler { texture_id, sampler_binding_type } => {
            let texture_name = match project.get_texture(texture_id) {
                Some(texture) => texture.name(),
                None => "missing texture",
            };
            let mut label = "sampler: ".to_owned();
            label.append(texture_name);
            label.append(", type: ");
            label.append(sampler_binding_label(sampler_binding_type));
            label
        },
        BindGroupResource::Uniform(uniform_id) => {
            let uniform_label = match project.get_uniform(uniform_id) {
                Some(uniform) => uniform.label(),
                None => "missing uniform",
            };
            let mut label = "uniform: ".to_owned();
            label.append(uniform_label);
            label
        },
    }
}

/// The name of the type of a field.
pub open spec fn uniform_field_type_text(ty: UniformFieldType) -> Seq<char> {
    match ty {
        UniformFieldType::Vec2f(_) => "Vec2f"@,
        UniformFieldType::Vec3f(_) => "Vec3f"@,
        UniformFieldType::Vec4f(_) => "Vec4f"@,
        UniformFieldType::Rgb(_) => "Rgb"@,
        UniformFieldType::Rgba(_) => "Rgba"@,
        UniformFieldType::Mat4x4f(_) => "Mat4x4f"@,
    }
}

/// The name of the type of a field.
pub fn uniform_field_type_label(ty: &UniformFieldType) -> (label: &'static str)
    ensures
        label@ == uniform_field_type_text(*ty),
{
    match ty {
        UniformFieldType::Vec2f(_) => "Vec2f",
        UniformFieldType::Vec3f(_) => "Vec3f",
        UniformFieldType::Vec4f(_) => "Vec4f",
        UniformFieldType::Rgb(_) => "Rgb",
        UniformFieldType::Rgba(_) => "Rgba",
        UniformFieldType::Mat4x4f(_) => "Mat4x4f",
    }
}

/// The type of a field as a shader declares it.
pub open spec fn uniform_wgsl_type_text(ty: UniformFieldType) -> Seq<char> {
    match ty {
        UniformFieldType::Vec2f(_) => "vec2<f32>"@,
        UniformFieldType::Vec3f(_) | UniformFieldType::Rgb(_) => "vec3<f32>"@,
        UniformFieldType::Vec4f(_) | UniformFieldType::Rgba(_) => "vec4<f32>"@,
        UniformFieldType::Mat4x4f(_) => "mat4x4<f32>"@,
    }
}

/// The type of a field as a shader declares it.
pub fn uniform_wgsl_type_label(ty: &UniformFieldType) -> (label: &'static str)
    ensures
        label@ == uniform_wgsl_type_text(*ty),
{
    match ty {
        UniformFieldType::Vec2f(_) => "vec2<f32>",
        UniformFieldType::Vec3f(_) => "vec3<f32>",
        UniformFieldType::Vec4f(_) => "vec4<f32>",
        UniformFieldType::Rgb(_) => "vec3<f32>",
        UniformFieldType::Rgba(_) => "vec4<f32>",
        UniformFieldType::Mat4x4f(_) => "mat4x4<f32>",
    }
}

} // verus!
