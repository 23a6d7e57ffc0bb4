//! Bind groups: which resource is bound at which slot.
//!
//! A bind group is described by an ordered list of entries, each a binding
//! slot and a reference to a resource of the registry. From the entries the
//! resolver derives the layout of the group and, by looking every reference up
//! in the registry, the resources that are bound.

use crate::project::Project;
use crate::store::Handle;
use crate::texture::{TextureEntry, TextureId};
use crate::uniform::{Uniform, UniformId};
use vstd::prelude::*;
use vstd::std_specs::convert::FromSpecImpl;

verus! {

/// The handle of a bind group in a project.
#[derive(Clone, Copy, Debug, PartialEq, Eq, Hash)]
pub struct BindGroupId {
    handle: Handle,
}

impl BindGroupId {
    pub(crate) fn new(handle: Handle) -> (id: Self)
        ensures
            id.spec_handle() == handle,
    {
        BindGroupId { handle }
    }

    pub closed spec fn spec_handle(&self) -> Handle {
        self.handle
    }

    /// The handle under which the store of bind groups keeps the group.
    #[verifier::when_used_as_spec(spec_handle)]
    pub fn handle(&self) -> (h: Handle)
        ensures
            h == self.spec_handle(),
    {
        self.handle
    }
}

/// The dimensions of a texture view.
#[derive(Debug, Clone, Copy, PartialEq, Eq, Hash)]
pub enum TextureViewDimension {
    D1,
    D2,
    D2Array,
    Cube,
    CubeArray,
    D3,
}

/// How a sampler is bound.
#[derive(Debug, Clone, Copy, PartialEq, Eq, Hash)]
pub enum SamplerBindingType {
    Filtering,
    NonFiltering,
    Comparison,
}

/// A reference to the resource that an entry binds.
#[derive(Debug, Clone, Copy, PartialEq, Eq, Hash)]
pub enum BindGroupResource {
    /// The view of a texture.
    Texture { texture_id: TextureId, view_dimension: TextureViewDimension },
    /// The sampler of a texture.
    Sampler { texture_id: TextureId, sampler_binding_type: SamplerBindingType },
    /// The buffer of a uniform.
    Uniform(UniformId),
}

/// One entry of a bind group: a binding slot and what is bound there.
#[derive(Debug, Clone, Copy, PartialEq, Eq, Hash)]
pub struct BindGroupEntry {
    pub binding: u32,
    pub resource: BindGroupResource,
}

/// The shader stages that see a binding.
#[derive(Debug, Clone, Copy, PartialEq, Eq, Hash)]
pub struct ShaderStages {
    pub vertex: bool,
    pub fragment: bool,
    pub compute: bool,
}

/// The type of a binding in the layout of a bind group.
#[derive(Debug, Clone, Copy, PartialEq, Eq, Hash)]
pub enum BindingType {
    /// A sampled texture with floating-point samples.
    Texture { filterable: bool, view_dimension: TextureViewDimension, multisampled: bool },
    /// A sampler.
    Sampler(SamplerBindingType),
    /// A uniform buffer.
    UniformBuffer { has_dynamic_offset: bool, min_binding_size: Option<u64> },
}

/// One entry of the layout of a bind group.
#[derive(Debug, Clone, Copy, PartialEq, Eq, Hash)]
pub struct BindGroupLayoutEntry {
    pub binding: u32,
    pub visibility: ShaderStages,
    pub ty: BindingType,
    pub count: Option<u32>,
}

/// The type of the binding that a resource reference asks for.
pub open spec fn binding_type_of(resource: BindGroupResource) -> BindingType {
    match resource {
        BindGroupResource::Texture { view_dimension, .. } => BindingType::Texture {
            filterable: false,
            view_dimension,
            multisampled: false,
        },
        BindGroupResource::Sampler { sampler_binding_type, .. } => BindingType::Sampler(
            sampler_binding_type,
        ),
        BindGroupResource::Uniform(_) => BindingType::UniformBuffer {
            has_dynamic_offset: false,
            min_binding_size: None,
        },
    }
}

/// The layout entry of an entry: its slot, visible to the vertex and the
/// fragment stage, with the type that its resource asks for.
pub open spec fn layout_entry_of(entry: BindGroupEntry) -> BindGroupLayoutEntry {
    BindGroupLayoutEntry {
        binding: entry.binding,
        visibility: ShaderStages { vertex: true, fragment: true, compute: false },
        ty: binding_type_of(entry.resource),
        count: None,
    }
}

impl From<BindGroupResource> for BindingType {
    fn from(value: BindGroupResource) -> (ty: Self) {
        match value {
            BindGroupResource::Texture { view_dimension, .. } => BindingType::Texture {
                filterable: false,
                view_dimension,
                multisampled: false,
            },
            BindGroupResource::Sampler { sampler_binding_type, .. } => BindingType::Sampler(
                sampler_binding_type,
            ),
            BindGroupResource::Uniform(_) => BindingType::UniformBuffer {
                has_dynamic_offset: false,
                min_binding_size: None,
            },
        }
    }
}

impl FromSpecImpl<BindGroupResource> for BindingType {
    open spec fn obeys_from_spec() -> bool {
        true
    }

    open spec fn from_spec(value: BindGroupResource) -> Self {
        binding_type_of(value)
    }
}

impl From<BindGroupEntry> for BindGroupLayoutEntry {
    fn from(value: BindGroupEntry) -> (entry: Self) {
        BindGroupLayoutEntry {
            binding: value.binding,
            visibility: ShaderStages { vertex: true, fragment: true, compute: false },
            ty: BindingType::from(value.resource),
            count: None,
        }
    }
}

impl FromSpecImpl<BindGroupEntry> for BindGroupLayoutEntry {
    open spec fn obeys_from_spec() -> bool {
        true
    }

    open spec fn from_spec(value: BindGroupEntry) -> Self {
        layout_entry_of(value)
    }
}

/// Whether entry `j` binds a slot that an earlier entry binds already.
pub open spec fn repeats_binding(entries: Seq<BindGroupEntry>, j: int) -> bool {
    exists|i: int| 0 <= i < j && (#[trigger] entries[i]).binding == entries[j].binding
}

/// Whether no two entries bind the same slot.
pub open spec fn bindings_unique(entries: Seq<BindGroupEntry>) -> bool {
    forall|j: int| 0 <= j < entries.len() ==> !#[trigger] repeats_binding(entries, j)
}

/// Whether `j` is the first entry that binds a slot for the second time.
pub open spec fn first_repeat(entries: Seq<BindGroupEntry>, j: int) -> bool {
    &&& 0 <= j < entries.len()
    &&& repeats_binding(entries, j)
    &&& forall|k: int| 0 <= k < j ==> !#[trigger] repeats_binding(entries, k)
}

/// Looks for a binding slot that occurs twice. Gives the slot of the first
/// entry that repeats an earlier one, or nothing when all slots differ.
pub fn find_duplicate_binding(entries: &Vec<BindGroupEntry>) -> (r: Option<u32>)
    ensures
        r.is_none() <==> bindings_unique(entries@),
        r.is_some() ==> exists|j: int|
            first_repeat(entries@, j) && r == Some((#[trigger] entries@[j]).binding),
{
    let mut j: usize = 0;
    while j < entries.len()
        invariant
            j <= entries.len(),
            forall|k: int| 0 <= k < j ==> !#[trigger] repeats_binding(entries@, k),
        decreases entries.len() - j,
    {
        let mut i: usize = 0;
        while i < j
            invariant
                i <= j,
                j < entries.len(),
                forall|k: int| 0 <= k < j ==> !#[trigger] repeats_binding(entries@, k),
                forall|k: int| 0 <= k < i ==> (#[trigger] entries@[k]).binding != entries@[j as int].binding,
            decreases j - i,
        {
            if entries[i].binding == entries[j].binding {
                assert(repeats_binding(entries@, j as int));
                assert(first_repeat(entries@, j as int));
                return Some(entries[j].binding);
            }
            i += 1;
        }
        j += 1;
    }
    None
}

/// Why a bind group was not built.
#[derive(Debug, Clone, Copy, PartialEq, Eq)]
pub enum BindGroupError {
    /// Two entries bind the slot `binding`.
    DuplicateBinding { binding: u32 },
    /// The entry at slot `binding` refers to a texture that is not registered.
    TextureNotFound { binding: u32 },
    /// The entry at slot `binding` refers to a uniform that is not registered.
    UniformNotFound { binding: u32 },
}

/// A resource as it is bound: the GPU object that a reference resolved to.
pub enum BindingResource<'a, T, B> {
    /// The view of this texture.
    TextureView(&'a T),
    /// The sampler of this texture.
    Sampler(&'a T),
    /// This buffer, as a whole.
    Buffer(&'a B),
}

/// One entry of a bind group with its reference resolved.
pub struct ResolvedEntry<'a, T, B> {
    pub binding: u32,
    pub resource: BindingResource<'a, T, B>,
}

/// What a graphics device needs to create a bind group: the entries of its
/// layout and the resources to bind, both in the order of the entries.
pub struct BindGroupPlan<'a, T, B> {
    pub layout: Vec<BindGroupLayoutEntry>,
    pub resources: Vec<ResolvedEntry<'a, T, B>>,
}

/// Whether the resource that `entry` refers to is registered.
pub open spec fn resolves<T, B>(
    textures: Map<Handle, TextureEntry<T>>,
    uniforms: Map<Handle, Uniform<B>>,
    entry: BindGroupEntry,
) -> bool {
    match entry.resource {
        BindGroupResource::Texture { texture_id, .. } => textures.contains_key(texture_id.handle()),
        BindGroupResource::Sampler { texture_id, .. } => textures.contains_key(texture_id.handle()),
        BindGroupResource::Uniform(uniform_id) => uniforms.contains_key(uniform_id.handle()),
    }
}

/// The entry with its reference resolved: the GPU object that the registry
/// holds for it now.
pub open spec fn resolved<'a, T, B>(
    textures: Map<Handle, TextureEntry<T>>,
    uniforms: Map<Handle, Uniform<B>>,
    entry: BindGroupEntry,
) -> ResolvedEntry<'a, T, B>
    recommends
        resolves(textures, uniforms, entry),
{
    ResolvedEntry {
        binding: entry.binding,
        resource: match entry.resource {
            BindGroupResource::Texture { texture_id, .. } => BindingResource::TextureView(
                &textures[texture_id.handle()].spec_texture(),
            ),
            BindGroupResource::Sampler { texture_id, .. } => BindingResource::Sampler(
                &textures[texture_id.handle()].spec_texture(),
            ),
            BindGroupResource::Uniform(uniform_id) => BindingResource::Buffer(
                &uniforms[uniform_id.handle()].spec_buffer(),
            ),
        },
    }
}

/// The error for an entry whose resource is not registered.
pub open spec fn missing(entry: BindGroupEntry) -> BindGroupError {
    match entry.resource {
        BindGroupResource::Uniform(_) => BindGroupError::UniformNotFound { binding: entry.binding },
        _ => BindGroupError::TextureNotFound { binding: entry.binding },
    }
}

/// Whether `j` is the first entry whose resource is not registered.
pub open spec fn first_missing<T, B>(
    textures: Map<Handle, TextureEntry<T>>,
    uniforms: Map<Handle, Uniform<B>>,
    entries: Seq<BindGroupEntry>,
    j: int,
) -> bool {
    &&& 0 <= j < entries.len()
    &&& !resolves(textures, uniforms, entries[j])
    &&& forall|k: int| 0 <= k < j ==> resolves(textures, uniforms, #[trigger] entries[k])
}

/// Whether every entry refers to a registered resource.
pub open spec fn all_resolve<T, B>(
    textures: Map<Handle, TextureEntry<T>>,
    uniforms: Map<Handle, Uniform<B>>,
    entries: Seq<BindGroupEntry>,
) -> bool {
    forall|k: int| 0 <= k < entries.len() ==> resolves(textures, uniforms, #[trigger] entries[k])
}

/// Whether `error` is what the entries are refused with: a slot bound twice
/// counts before a missing resource, and of each kind the first entry at fault
/// is named.
pub open spec fn refused_with<T, B>(
    textures: Map<Handle, TextureEntry<T>>,
    uniforms: Map<Handle, Uniform<B>>,
    entries: Seq<BindGroupEntry>,
    error: BindGroupError,
) -> bool {
    if !bindings_unique(entries) {
        exists|j: int|
            first_repeat(entries, j) && error == (BindGroupError::DuplicateBinding {
                binding: (#[trigger] entries[j]).binding,
            })
    } else {
        exists|j: int|
            first_missing(textures, uniforms, entries, j) && error == missing(#[trigger] entries[j])
    }
}

impl BindGroupEntry {
    /// The entry with its reference resolved against the registry, or the
    /// error that names the missing resource.
    pub fn into_bind_group_entry<'a, T, B, G>(&self, project: &'a Project<T, B, G>) -> (r: Result<
        ResolvedEntry<'a, T, B>,
        BindGroupError,
    >)
        requires
            project.wf(),
        ensures
            resolves(project.textures(), project.uniforms(), *self) ==> r == Ok::<
                ResolvedEntry<'a, T, B>,
                BindGroupError,
            >(resolved(project.textures(), project.uniforms(), *self)),
            !resolves(project.textures(), project.uniforms(), *self) ==> r == Err::<
                ResolvedEntry<'a, T, B>,
                BindGroupError,
            >(missing(*self)),
    {
        let resource = match self.resource {
            BindGroupResource::Texture { texture_id, .. } => {
                match project.get_texture(texture_id) {
                    Some(texture) => BindingResource::TextureView(texture.texture()),
                    None => {
                        return Err(BindGroupError::TextureNotFound { binding: self.binding });
                    },
                }
            },
            BindGroupResource::Sampler { texture_id, .. } => {
                match project.get_texture(texture_id) {
                    Some(texture) => BindingResource::Sampler(texture.texture()),
                    None => {
                        return Err(BindGroupError::TextureNotFound { binding: self.binding });
                    },
                }
            },
            BindGroupResource::Uniform(uniform_id) => {
                match project.get_uniform(uniform_id) {
                    Some(uniform) => BindingResource::Buffer(uniform.buffer()),
                    None => {
                        return Err(BindGroupError::UniformNotFound { binding: self.binding });
                    },
                }
            },
        };
        Ok(ResolvedEntry { binding: self.binding, resource })
    }
}

/// Derives from the entries of a bind group what a graphics device needs to
/// create it. Entries that bind a slot twice are refused before any reference
/// is looked up; after that every reference has to resolve.
pub fn resolve_bind_group<'a, T, B, G>(
    project: &'a Project<T, B, G>,
    entries: &Vec<BindGroupEntry>,
) -> (r: Result<BindGroupPlan<'a, T, B>, BindGroupError>)
    requires
        project.wf(),
    ensures
        match r {
            Ok(plan) => {
                &&& bindings_unique(entries@)
                &&& all_resolve(project.textures(), project.uniforms(), entries@)
                &&& plan.layout@ == entries@.map_values(|e: BindGroupEntry| layout_entry_of(e))
                &&& plan.resources@ == entries@.map_values(
                    |e: BindGroupEntry| resolved(project.textures(), project.uniforms(), e),
                )
            },
            Err(error) => {
                &&& !(bindings_unique(entries@) && all_resolve(
                    project.textures(),
                    project.uniforms(),
                    entries@,
                ))
                &&& refused_with(project.textures(), project.uniforms(), entries@, error)
            },
        },
{
    if let Some(binding) = find_duplicate_binding(entries) {
        return Err(BindGroupError::DuplicateBinding { binding });
    }
    let mut layout: Vec<BindGroupLayoutEntry> = Vec::new();
    let mut resources: Vec<ResolvedEntry<'a, T, B>> = Vec::new();
    let mut i: usize = 0;
    while i < entries.len()
        invariant
            i <= entries.len(),
            project.wf(),
            bindings_unique(entries@),
            layout@ == entries@.take(i as int).map_values(|e: BindGroupEntry| layout_entry_of(e)),
            resources@ == entries@.take(i as int).map_values(
                |e: BindGroupEntry| resolved(project.textures(), project.uniforms(), e),
            ),
            forall|k: int|
                0 <= k < i ==> resolves(
                    project.textures(),
                    project.uniforms(),
                    #[trigger] entries@[k],
                ),
        decreases entries.len() - i,
    {
        let entry = entries[i];
        match entry.into_bind_group_entry(project) {
            Ok(bound) => {
                layout.push(BindGroupLayoutEntry::from(entry));
                resources.push(bound);
            },
            Err(error) => {
                assert(first_missing(project.textures(), project.uniforms(), entries@, i as int));
                return Err(error);
            },
        }
        proof {
            assert(entries@.take(i + 1) =~= entries@.take(i as int).push(entry));
            assert(layout@ =~= entries@.take(i + 1).map_values(
                |e: BindGroupEntry| layout_entry_of(e),
            ));
            assert(resources@ =~= entries@.take(i + 1).map_values(
                |e: BindGroupEntry| resolved(project.textures(), project.uniforms(), e),
            ));
        }
        i += 1;
    }
    proof {
        assert(entries@.take(i as int) =~= entries@);
    }
    Ok(BindGroupPlan { layout, resources })
}

/// Resolves the entries of a registered bind group again, against the
/// registry as it is now. This is what a graphics device needs to build the
/// group anew after a resource that it binds got a new GPU object. The
/// entries of a registered group always resolve; nothing comes back where
/// `id` refers to no group.
pub fn resolve_registered<'a, T, B, G>(project: &'a Project<T, B, G>, id: BindGroupId) -> (r: Option<
    BindGroupPlan<'a, T, B>,
>)
    requires
        project.wf(),
    ensures
        r.is_some() == project.bind_groups().contains_key(id.handle()),
        match r {
            Some(plan) => {
                let entries = project.bind_groups()[id.handle()].spec_entries();
                &&& plan.layout@ == entries.map_values(|e: BindGroupEntry| layout_entry_of(e))
                &&& plan.resources@ == entries.map_values(
                    |e: BindGroupEntry| resolved(project.textures(), project.uniforms(), e),
                )
            },
            None => true,
        },
{
    match project.get_bind_group(id) {
        Some(group) => match resolve_bind_group(project, group.entries()) {
            Ok(plan) => Some(plan),
            Err(_) => None,
        },
        None => None,
    }
}

/// A bind group of the registry: its label, the GPU objects `G` that were
/// created for it, and the entries that it was built from. No two of its
/// entries bind the same slot.
pub struct BindGroup<G> {
    label: String,
    group: G,
    entries: Vec<BindGroupEntry>,
}

impl<G> BindGroup<G> {
    #[verifier::type_invariant]
    spec fn slots_differ(self) -> bool {
        bindings_unique(self.entries@)
    }

    pub closed spec fn spec_label(&self) -> Seq<char> {
        self.label@
    }

    pub closed spec fn spec_group(&self) -> G {
        self.group
    }

    pub closed spec fn spec_entries(&self) -> Seq<BindGroupEntry> {
        self.entries@
    }

    pub fn new(label: &str, group: G, entries: Vec<BindGroupEntry>) -> (bind_group: Self)
        requires
            bindings_unique(entries@),
        ensures
            bind_group.spec_label() == label@,
            bind_group.spec_group() == group,
            bind_group.spec_entries() == entries@,
    {
        BindGroup { label: label.to_owned(), group, entries }
    }

    pub fn label(&self) -> (label: &str)
        ensures
            label@ == self.spec_label(),
    {
        self.label.as_str()
    }

    pub fn group(&self) -> (group: &G)
        ensures
            *group == self.spec_group(),
    {
        &self.group
    }

    /// Puts new GPU objects in the place of the old ones, which come back.
    /// The layout and the bound resources of a group are one value, so they
    /// are always replaced together.
    pub fn replace_group(&mut self, group: G) -> (replaced: G)
        ensures
            replaced == old(self).spec_group(),
            final(self).spec_group() == group,
            final(self).spec_label() == old(self).spec_label(),
            final(self).spec_entries() == old(self).spec_entries(),
    {
        proof {
            use_type_invariant(&*self);
        }
        let mut group = group;
        std::mem::swap(&mut self.group, &mut group);
        group
    }

    /// The entries of the group in their order. Their binding slots differ.
    pub fn entries(&self) -> (entries: &Vec<BindGroupEntry>)
        ensures
            entries@ == self.spec_entries(),
            bindings_unique(entries@),
    {
        proof {
            use_type_invariant(self);
        }
        &self.entries
    }
}

/// Two entries that share a binding slot are always refused, whatever they
/// refer to, and the error names a slot that is bound twice.
pub proof fn lemma_shared_slot_is_refused<T, B>(
    textures: Map<Handle, TextureEntry<T>>,
    uniforms: Map<Handle, Uniform<B>>,
    entries: Seq<BindGroupEntry>,
    i: int,
    j: int,
    error: BindGroupError,
)
    requires
        0 <= i < j < entries.len(),
        entries[i].binding == entries[j].binding,
        refused_with(textures, uniforms, entries, error),
    ensures
        !bindings_unique(entries),
        exists|k: int|
            0 <= k < entries.len() && repeats_binding(entries, k) && error
                == (BindGroupError::DuplicateBinding { binding: (#[trigger] entries[k]).binding }),
{
    assert(repeats_binding(entries, j));
}

} // verus!
