//! The declarative description of a project, and the plan of its render
//! pipeline.
//!
//! A project names its shaders, textures and the bind groups of its render
//! pipeline. Before any GPU object is created the bind groups are put in the
//! order of their set indices, which have to be 0, 1, 2 and so on without a
//! gap, and every name is looked up.

use vstd::prelude::*;
use vstd::relations::{sorted_by, total_ordering};
use vstd::seq_lib::{lemma_sorted_unique, to_multiset_build, to_multiset_insert};

verus! {

/// Where the source of a shader lies.
#[derive(Debug, Clone)]
pub enum ShaderType {
    Glsl { vertex_shader: String, fragment_shader: String },
    Wgsl { shader: String },
}

/// A shader of the project.
#[derive(Debug, Clone)]
pub struct Shader {
    pub name: String,
    pub shader_type: ShaderType,
}

/// A texture of the project. Where it has no name it goes by its path.
#[derive(Debug, Clone)]
pub struct Texture {
    pub name: Option<String>,
    pub path: String,
}

impl Texture {
    /// The name under which the texture is known.
    pub open spec fn spec_label(&self) -> Seq<char> {
        match self.name {
            Some(name) => name@,
            None => self.path@,
        }
    }

    /// The name under which the texture is known: its own, or its path where
    /// it has none.
    pub fn label(&self) -> (label: String)
        ensures
            label@ == self.spec_label(),
    {
        match &self.name {
            Some(name) => name.clone(),
            None => self.path.clone(),
        }
    }
}

/// The shader of a render pipeline, by name.
#[derive(Debug, Clone)]
pub struct ShaderIdentifier {
    pub shader_name: String,
}

/// A custom uniform of a render pipeline.
#[derive(Debug, Clone, Copy, PartialEq, Eq)]
pub enum CustomUniformType {
    Color,
    Vec4,
    Mat4,
}

/// What a bind group of a render pipeline provides.
#[derive(Debug, Clone)]
pub enum BindGroupIdentifierType {
    Camera,
    Texture { texture_name: String },
    Time,
    Custom(CustomUniformType),
}

/// A bind group of a render pipeline: its set index and what it provides.
#[derive(Debug, Clone)]
pub struct BindGroupIdentifier {
    pub index: u32,
    pub bind_group_type: BindGroupIdentifierType,
}

/// A render pipeline of the project: its shader and its bind groups by name,
/// in no particular order.
#[derive(Debug, Clone)]
pub struct RenderPipeline {
    pub name: String,
    pub shader: ShaderIdentifier,
    pub bind_groups: Vec<(String, BindGroupIdentifier)>,
}

/// The order of set indices.
pub open spec fn set_leq() -> spec_fn(u32, u32) -> bool {
    |a: u32, b: u32| a <= b
}

/// The set indices of the bind groups, in the order of the bind groups.
pub open spec fn set_indices(groups: Seq<(String, BindGroupIdentifier)>) -> Seq<u32> {
    groups.map_values(|g: (String, BindGroupIdentifier)| g.1.index)
}

/// The set indices of the bind groups in rising order.
pub open spec fn sorted_sets(groups: Seq<(String, BindGroupIdentifier)>) -> Seq<u32> {
    set_indices(groups).sort_by(set_leq())
}

/// Whether the set indices are 0, 1, 2 and so on, each once.
pub open spec fn contiguous(groups: Seq<(String, BindGroupIdentifier)>) -> bool {
    forall|i: int| 0 <= i < groups.len() ==> #[trigger] sorted_sets(groups)[i] == i
}

/// Whether `expected` is the first place at which the sorted set indices
/// leave the row 0, 1, 2 and so on.
pub open spec fn first_jump(groups: Seq<(String, BindGroupIdentifier)>, expected: int) -> bool {
    &&& 0 <= expected < groups.len()
    &&& sorted_sets(groups)[expected] != expected
    &&& forall|k: int| 0 <= k < expected ==> #[trigger] sorted_sets(groups)[k] == k
}

/// Whether one of the bind groups has the set index `set`.
pub open spec fn has_set(groups: Seq<(String, BindGroupIdentifier)>, set: u32) -> bool {
    exists|p: int| 0 <= p < groups.len() && (#[trigger] groups[p]).1.index == set
}

/// Sorting keeps the number of set indices, and every sorted index is the
/// index of a bind group.
pub proof fn lemma_sorted_sets(groups: Seq<(String, BindGroupIdentifier)>)
    ensures
        sorted_sets(groups).len() == groups.len(),
        sorted_by(sorted_sets(groups), set_leq()),
        sorted_sets(groups).to_multiset() == set_indices(groups).to_multiset(),
        forall|i: int|
            0 <= i < groups.len() ==> has_set(groups, #[trigger] sorted_sets(groups)[i]),
{
    broadcast use vstd::seq_lib::group_to_multiset_ensures;

    let keys = set_indices(groups);
    assert(total_ordering(set_leq()));
    keys.lemma_sort_by_ensures(set_leq());
    let sorted = sorted_sets(groups);
    assert(sorted.len() == keys.len()) by {
        assert(sorted.to_multiset().len() == keys.to_multiset().len());
    }
    assert forall|i: int| 0 <= i < groups.len() implies has_set(groups, #[trigger] sorted[i]) by {
        assert(sorted.contains(sorted[i]));
        assert(keys.to_multiset().count(sorted[i]) > 0);
        assert(keys.contains(sorted[i]));
        let p = choose|p: int| 0 <= p < keys.len() && keys[p] == sorted[i];
        assert(groups[p].1.index == sorted[i]);
    }
}

/// The set indices in rising order.
fn sort_sets(groups: &Vec<(String, BindGroupIdentifier)>) -> (sorted: Vec<u32>)
    ensures
        sorted@ == sorted_sets(groups@),
        sorted@.len() == groups@.len(),
{
    let ghost keys = set_indices(groups@);
    let mut sorted: Vec<u32> = Vec::new();
    let mut i: usize = 0;
    assert(sorted@ =~= keys.take(0));
    while i < groups.len()
        invariant
            i <= groups.len(),
            keys == set_indices(groups@),
            sorted@.len() == i,
            sorted_by(sorted@, set_leq()),
            sorted@.to_multiset() == keys.take(i as int).to_multiset(),
        decreases groups.len() - i,
    {
        let set = groups[i].1.index;
        let mut j: usize = 0;
        while j < sorted.len() && sorted[j] <= set
            invariant
                j <= sorted.len(),
                forall|k: int| 0 <= k < j ==> (#[trigger] sorted@[k]) <= set,
            decreases sorted.len() - j,
        {
            j += 1;
        }
        let ghost before = sorted@;
        sorted.insert(j, set);
        proof {
            assert(keys.take(i + 1) =~= keys.take(i as int).push(set));
            to_multiset_insert(before, j as int, set);
            to_multiset_build(keys.take(i as int), set);
            assert forall|a: int, b: int| 0 <= a < b < sorted@.len() implies set_leq()(
                sorted@[a],
                sorted@[b],
            ) by {
                if a < j && b > j {
                    assert(set_leq()(before[a], before[b - 1]));
                } else if a < j && b < j {
                    assert(set_leq()(before[a], before[b]));
                } else if a > j {
                    assert(set_leq()(before[a - 1], before[b - 1]));
                } else if a == j {
                    assert(set_leq()(before[j as int], before[b - 1]));
                }
            }
        }
        i += 1;
    }
    proof {
        assert(keys.take(i as int) =~= keys);
        assert(total_ordering(set_leq()));
        keys.lemma_sort_by_ensures(set_leq());
        lemma_sorted_unique(sorted@, keys.sort_by(set_leq()), set_leq());
    }
    sorted
}

/// Where the set indices are contiguous, no two bind groups share one.
pub proof fn lemma_contiguous_sets_differ(groups: Seq<(String, BindGroupIdentifier)>)
    requires
        contiguous(groups),
    ensures
        forall|p: int, q: int|
            0 <= p < groups.len() && 0 <= q < groups.len() && p != q ==> (#[trigger] groups[p]).1.index
                != (#[trigger] groups[q]).1.index,
        forall|p: int| 0 <= p < groups.len() ==> (#[trigger] groups[p]).1.index < groups.len(),
{
    broadcast use vstd::seq_lib::group_to_multiset_ensures;

    lemma_sorted_sets(groups);
    let keys = set_indices(groups);
    let sorted = sorted_sets(groups);
    assert(sorted.no_duplicates()) by {
        assert forall|a: int, b: int| 0 <= a < sorted.len() && 0 <= b < sorted.len() && a
            != b implies sorted[a] != sorted[b] by {
            assert(sorted[a] == a);
            assert(sorted[b] == b);
        }
    }
    sorted.lemma_multiset_has_no_duplicates();
    keys.lemma_multiset_has_no_duplicates_conv();
    assert forall|p: int, q: int|
        0 <= p < groups.len() && 0 <= q < groups.len() && p != q implies (#[trigger] groups[p]).1.index
        != (#[trigger] groups[q]).1.index by {
        assert(keys[p] != keys[q]);
    }
    assert forall|p: int| 0 <= p < groups.len() implies (#[trigger] groups[p]).1.index
        < groups.len() by {
        assert(keys.contains(keys[p]));
        assert(sorted.to_multiset().count(keys[p]) > 0);
        assert(sorted.contains(keys[p]));
        let i = choose|i: int| 0 <= i < sorted.len() && sorted[i] == keys[p];
        assert(sorted[i] == i);
    }
}

/// Which of the two layouts a bind group of a render pipeline has.
#[derive(Debug, Clone, Copy, PartialEq, Eq)]
pub enum BindGroupLayoutKind {
    /// A texture and its sampler.
    Texture,
    /// One uniform buffer.
    Uniform,
}

/// What fills a bind group of a render pipeline.
#[derive(Debug, Clone, Copy, PartialEq, Eq)]
pub enum BindingProvider {
    Camera,
    /// The texture at this place among the textures of the project.
    Texture(usize),
    Time,
    Custom(CustomUniformType),
}

/// A bind group of a render pipeline with its name looked up.
#[derive(Debug)]
pub struct RenderBinding {
    pub name: String,
    pub set: u32,
    pub provider: BindingProvider,
}

/// What a graphics device needs to build a render pipeline: the place of the
/// shader among the shaders of the project, and the bind groups in the order
/// of their set indices, each with its layout.
#[derive(Debug)]
pub struct PipelinePlan {
    pub shader: usize,
    pub layouts: Vec<BindGroupLayoutKind>,
    pub bindings: Vec<RenderBinding>,
}

/// Why a render pipeline was not planned.
#[derive(Debug, Clone, Copy, PartialEq, Eq)]
pub enum PipelineError {
    /// The set indices leave a gap or repeat: in rising order, `index` stands
    /// where `expected` belongs.
    NonContiguous { index: u32, expected: usize },
    /// No shader of the project has the name that the pipeline asks for.
    ShaderNotFound,
    /// The bind group with set index `set` names a texture that the project
    /// does not have.
    TextureNotFound { set: u32 },
}

/// Whether `i` is the first place in `names` that holds `name`.
pub open spec fn first_named(names: Seq<String>, name: Seq<char>, i: int) -> bool {
    &&& 0 <= i < names.len()
    &&& names[i]@ == name
    &&& forall|k: int| 0 <= k < i ==> (#[trigger] names[k])@ != name
}

/// Whether none of `names` is `name`.
pub open spec fn unnamed(names: Seq<String>, name: Seq<char>) -> bool {
    forall|k: int| 0 <= k < names.len() ==> (#[trigger] names[k])@ != name
}

/// The first place in `names` that holds `name`.
pub fn position_of(names: &Vec<String>, name: &String) -> (r: Option<usize>)
    ensures
        match r {
            Some(i) => first_named(names@, name@, i as int),
            None => unnamed(names@, name@),
        },
{
    let mut i: usize = 0;
    while i < names.len()
        invariant
            i <= names.len(),
            forall|k: int| 0 <= k < i ==> (#[trigger] names@[k])@ != name@,
        decreases names.len() - i,
    {
        if names[i] == *name {
            return Some(i);
        }
        i += 1;
    }
    None
}

/// The layout of a bind group that provides `ty`.
pub open spec fn layout_kind_of(ty: BindGroupIdentifierType) -> BindGroupLayoutKind {
    match ty {
        BindGroupIdentifierType::Texture { .. } => BindGroupLayoutKind::Texture,
        _ => BindGroupLayoutKind::Uniform,
    }
}

/// Whether a bind group names a texture that is not among `textures`.
pub open spec fn texture_missing(ty: BindGroupIdentifierType, textures: Seq<String>) -> bool {
    match ty {
        BindGroupIdentifierType::Texture { texture_name } => unnamed(textures, texture_name@),
        _ => false,
    }
}

/// Whether `provider` is what fills a bind group that provides `ty`: for a
/// texture the first place among `textures` that has its name.
pub open spec fn provides(
    ty: BindGroupIdentifierType,
    textures: Seq<String>,
    provider: BindingProvider,
) -> bool {
    match ty {
        BindGroupIdentifierType::Camera => provider == BindingProvider::Camera,
        BindGroupIdentifierType::Time => provider == BindingProvider::Time,
        BindGroupIdentifierType::Custom(custom) => provider == BindingProvider::Custom(custom),
        BindGroupIdentifierType::Texture { texture_name } => exists|i: int|
            first_named(textures, texture_name@, i) && provider == BindingProvider::Texture(
                i as usize,
            ),
    }
}

/// Whether `binding`, with the layout `layout`, is bind group `p` of the
/// pipeline with its name looked up.
pub open spec fn plans(
    groups: Seq<(String, BindGroupIdentifier)>,
    textures: Seq<String>,
    p: int,
    binding: RenderBinding,
    layout: BindGroupLayoutKind,
) -> bool {
    &&& 0 <= p < groups.len()
    &&& binding.name@ == groups[p].0@
    &&& binding.set == groups[p].1.index
    &&& provides(groups[p].1.bind_group_type, textures, binding.provider)
    &&& layout == layout_kind_of(groups[p].1.bind_group_type)
}

/// The place of the bind group with set index `set`.
fn group_with_set(groups: &Vec<(String, BindGroupIdentifier)>, set: u32) -> (p: usize)
    requires
        has_set(groups@, set),
    ensures
        p < groups.len(),
        groups@[p as int].1.index == set,
{
    let mut p: usize = 0;
    while p < groups.len()
        invariant
            p <= groups.len(),
            has_set(groups@, set),
            forall|k: int| 0 <= k < p ==> (#[trigger] groups@[k]).1.index != set,
        decreases groups.len() - p,
    {
        if groups[p].1.index == set {
            return p;
        }
        p += 1;
    }
    proof {
        let q = choose|q: int| 0 <= q < groups@.len() && (#[trigger] groups@[q]).1.index == set;
        assert(groups@[q].1.index != set);
    }
    0
}

impl RenderPipeline {
    /// Plans the pipeline against the names of the shaders and the textures
    /// of the project. The set indices of the bind groups have to be 0, 1, 2
    /// and so on, each once; then the shader and every texture that a bind
    /// group names have to exist. The plan lists the bind groups in the order
    /// of their set indices.
    pub fn plan(&self, shaders: &Vec<String>, textures: &Vec<String>) -> (r: Result<
        PipelinePlan,
        PipelineError,
    >)
        ensures
            match r {
                Ok(plan) => {
                    &&& contiguous(self.bind_groups@)
                    &&& first_named(shaders@, self.shader.shader_name@, plan.shader as int)
                    &&& plan.bindings.len() == self.bind_groups.len()
                    &&& plan.layouts.len() == self.bind_groups.len()
                    &&& forall|i: int|
                        0 <= i < self.bind_groups.len() ==> (#[trigger] plan.bindings[i]).set == i
                            && exists|p: int|
                            plans(self.bind_groups@, textures@, p, plan.bindings[i], plan.layouts[i])
                },
                Err(PipelineError::NonContiguous { index, expected }) => {
                    &&& first_jump(self.bind_groups@, expected as int)
                    &&& index == sorted_sets(self.bind_groups@)[expected as int]
                },
                Err(PipelineError::ShaderNotFound) => {
                    &&& contiguous(self.bind_groups@)
                    &&& unnamed(shaders@, self.shader.shader_name@)
                },
                Err(PipelineError::TextureNotFound { set }) => {
                    &&& contiguous(self.bind_groups@)
                    &&& !unnamed(shaders@, self.shader.shader_name@)
                    &&& exists|p: int|
                        0 <= p < self.bind_groups.len() && (#[trigger] self.bind_groups[p]).1.index
                            == set && texture_missing(
                            self.bind_groups[p].1.bind_group_type,
                            textures@,
                        )
                    &&& forall|q: int|
                        0 <= q < self.bind_groups.len() && (#[trigger] self.bind_groups[q]).1.index
                            < set ==> !texture_missing(
                            self.bind_groups[q].1.bind_group_type,
                            textures@,
                        )
                },
            },
    {
        let groups = &self.bind_groups;
        let sorted = sort_sets(groups);
        let mut expected: usize = 0;
        while expected < sorted.len()
            invariant
                expected <= sorted.len(),
                groups@ == self.bind_groups@,
                sorted@ == sorted_sets(groups@),
                sorted@.len() == groups@.len(),
                forall|k: int| 0 <= k < expected ==> #[trigger] sorted@[k] == k,
            decreases sorted.len() - expected,
        {
            if sorted[expected] as usize != expected {
                return Err(
                    PipelineError::NonContiguous { index: sorted[expected], expected },
                );
            }
            expected += 1;
        }
        proof {
            assert(contiguous(groups@));
            lemma_contiguous_sets_differ(groups@);
        }
        let shader = match position_of(shaders, &self.shader.shader_name) {
            Some(shader) => shader,
            None => {
                return Err(PipelineError::ShaderNotFound);
            },
        };
        let mut layouts: Vec<BindGroupLayoutKind> = Vec::new();
        let mut bindings: Vec<RenderBinding> = Vec::new();
        let mut i: usize = 0;
        while i < groups.len()
            invariant
                i <= groups.len(),
                groups@ == self.bind_groups@,
                contiguous(groups@),
                forall|p: int, q: int|
                    0 <= p < groups@.len() && 0 <= q < groups@.len() && p != q ==> (#[trigger] groups@[p]).1.index
                        != (#[trigger] groups@[q]).1.index,
                first_named(shaders@, self.shader.shader_name@, shader as int),
                layouts.len() == i,
                bindings.len() == i,
                forall|k: int|
                    0 <= k < i ==> (#[trigger] bindings[k]).set == k && exists|p: int|
                        plans(groups@, textures@, p, bindings[k], layouts[k]),
                forall|q: int|
                    0 <= q < groups@.len() && (#[trigger] groups@[q]).1.index < i
                        ==> !texture_missing(groups@[q].1.bind_group_type, textures@),
            decreases groups.len() - i,
        {
            proof {
                lemma_sorted_sets(groups@);
                assert(sorted_sets(groups@)[i as int] == i);
            }
            let p = group_with_set(groups, i as u32);
            let (provider, layout) = match &groups[p].1.bind_group_type {
                BindGroupIdentifierType::Camera => (
                    BindingProvider::Camera,
                    BindGroupLayoutKind::Uniform,
                ),
                BindGroupIdentifierType::Time => (BindingProvider::Time, BindGroupLayoutKind::Uniform),
                BindGroupIdentifierType::Custom(custom) => (
                    BindingProvider::Custom(*custom),
                    BindGroupLayoutKind::Uniform,
                ),
                BindGroupIdentifierType::Texture { texture_name } => {
                    match position_of(textures, texture_name) {
                        Some(texture) => (
                            BindingProvider::Texture(texture),
                            BindGroupLayoutKind::Texture,
                        ),
                        None => {
                            return Err(PipelineError::TextureNotFound { set: i as u32 });
                        },
                    }
                },
            };
            let binding = RenderBinding { name: groups[p].0.clone(), set: i as u32, provider };
            let ghost planned = bindings@;
            let ghost laid_out = layouts@;
            proof {
                assert(plans(groups@, textures@, p as int, binding, layout));
                assert forall|k: int| 0 <= k < i + 1 implies (#[trigger] planned.push(binding)[k]).set
                    == k && exists|p: int|
                    plans(
                        groups@,
                        textures@,
                        p,
                        planned.push(binding)[k],
                        laid_out.push(layout)[k],
                    ) by {
                    if k < i {
                        assert(planned.push(binding)[k] == planned[k]);
                        let found = choose|found: int|
                            plans(groups@, textures@, found, planned[k], laid_out[k]);
                        assert(plans(
                            groups@,
                            textures@,
                            found,
                            planned.push(binding)[k],
                            laid_out.push(layout)[k],
                        ));
                    } else {
                        assert(plans(
                            groups@,
                            textures@,
                            p as int,
                            planned.push(binding)[k],
                            laid_out.push(layout)[k],
                        ));
                    }
                }
                assert forall|q: int|
                    0 <= q < groups@.len() && (#[trigger] groups@[q]).1.index < i + 1
                    implies !texture_missing(groups@[q].1.bind_group_type, textures@) by {
                    if groups@[q].1.index == i {
                        assert(q == p);
                    }
                }
            }
            layouts.push(layout);
            bindings.push(binding);
            i += 1;
        }
        Ok(PipelinePlan { shader, layouts, bindings })
    }
}

} // verus!
