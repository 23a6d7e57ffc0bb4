//! Shader sources.

use crate::store::Handle;
use vstd::prelude::*;

verus! {

/// The handle of a shader in a project.
#[derive(Clone, Copy, Debug, PartialEq, Eq, Hash)]
pub struct ShaderId {
    handle: Handle,
}

impl ShaderId {
    pub(crate) fn new(handle: Handle) -> (id: Self)
        ensures
            id.spec_handle() == handle,
    {
        ShaderId { handle }
    }

    pub closed spec fn spec_handle(&self) -> Handle {
        self.handle
    }

    /// The handle under which the store of shaders keeps the shader.
    #[verifier::when_used_as_spec(spec_handle)]
    pub fn handle(&self) -> (h: Handle)
        ensures
            h == self.spec_handle(),
    {
        self.handle
    }
}

/// A shader: its label and its source text. It does not change once created.
#[derive(Debug)]
pub struct Shader {
    label: String,
    source: String,
}

impl Shader {
    pub closed spec fn spec_label(&self) -> Seq<char> {
        self.label@
    }

    pub closed spec fn spec_source(&self) -> Seq<char> {
        self.source@
    }

    pub fn new(label: &str, source: String) -> (shader: Self)
        ensures
            shader.spec_label() == label@,
            shader.spec_source() == source@,
    {
        Shader { label: label.to_owned(), source }
    }

    pub fn label(&self) -> (label: &str)
        ensures
            label@ == self.spec_label(),
    {
        self.label.as_str()
    }

    pub fn source(&self) -> (source: &str)
        ensures
            source@ == self.spec_source(),
    {
        self.source.as_str()
    }
}

/// The compiled modules `M` of a shader: one module for both stages, or one
/// for each.
pub enum ShaderModules<M> {
    Wgsl(M),
    Glsl(M, M),
}

impl<M> ShaderModules<M> {
    /// The module of the vertex stage.
    pub open spec fn spec_vertex(&self) -> M {
        match self {
            ShaderModules::Wgsl(shader) => *shader,
            ShaderModules::Glsl(vertex, _) => *vertex,
        }
    }

    /// The module of the fragment stage.
    pub open spec fn spec_fragment(&self) -> M {
        match self {
            ShaderModules::Wgsl(shader) => *shader,
            ShaderModules::Glsl(_, fragment) => *fragment,
        }
    }

    /// The module of the vertex stage.
    pub fn vertex(&self) -> (module: &M)
        ensures
            *module == self.spec_vertex(),
    {
        match self {
            ShaderModules::Wgsl(shader) => shader,
            ShaderModules::Glsl(vertex, _) => vertex,
        }
    }

    /// The module of the fragment stage.
    pub fn fragment(&self) -> (module: &M)
        ensures
            *module == self.spec_fragment(),
    {
        match self {
            ShaderModules::Wgsl(shader) => shader,
            ShaderModules::Glsl(_, fragment) => fragment,
        }
    }
}

} // verus!
