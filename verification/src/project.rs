//! The resource registry of one project.
//!
//! A [`Project`] owns four stores that do not share handles: shaders,
//! textures, uniforms and bind groups. The GPU objects behind the entries are
//! values of the type parameters `T` (texture), `B` (buffer) and `G` (bind
//! group); the registry owns them and never looks inside.

use crate::bindgroup::{
    all_resolve, bindings_unique, refused_with, resolve_bind_group, BindGroup, BindGroupEntry,
    BindGroupError, BindGroupId,
};
use crate::shader::{Shader, ShaderId};
use crate::size::Size2d;
use crate::store::{Handle, Store, MAX_ENTRIES};
use crate::texture::{texture_ids, InspectorTextureId, TextureEntry, TextureId};
use crate::uniform::{
    serialized, uniform_ids, Uniform, UniformData, UniformError, UniformId,
};
use vstd::prelude::*;

verus! {

/// The registry of one project: its shaders, textures, uniforms and bind
/// groups, each kind in a store of its own. Entries are registered and changed
/// in place; none is ever taken out, so every reference of a registered bind
/// group stays valid.
pub struct Project<T, B, G> {
    shaders: Store<Shader>,
    textures: Store<TextureEntry<T>>,
    uniforms: Store<Uniform<B>>,
    bind_groups: Store<BindGroup<G>>,
}

impl<T, B, G> Project<T, B, G> {
    /// Whether the registry is consistent: its four stores are, and every
    /// entry of a registered bind group refers to a registered resource.
    pub closed spec fn wf(&self) -> bool {
        &&& self.shaders.wf()
        &&& self.textures.wf()
        &&& self.uniforms.wf()
        &&& self.bind_groups.wf()
        &&& forall|h: Handle| #[trigger]
            self.bind_groups@.contains_key(h) ==> all_resolve(
                self.textures@,
                self.uniforms@,
                self.bind_groups@[h].spec_entries(),
            )
    }

    /// The registered shaders.
    pub closed spec fn shaders(&self) -> Map<Handle, Shader> {
        self.shaders@
    }

    /// The registered textures.
    pub closed spec fn textures(&self) -> Map<Handle, TextureEntry<T>> {
        self.textures@
    }

    /// The registered uniforms.
    pub closed spec fn uniforms(&self) -> Map<Handle, Uniform<B>> {
        self.uniforms@
    }

    /// The registered bind groups.
    pub closed spec fn bind_groups(&self) -> Map<Handle, BindGroup<G>> {
        self.bind_groups@
    }

    /// The handles of the registered textures in the order in which the
    /// registry lists them.
    pub closed spec fn texture_order(&self) -> Seq<Handle> {
        self.textures.order()
    }

    /// The handles of the registered uniforms in the order in which the
    /// registry lists them.
    pub closed spec fn uniform_order(&self) -> Seq<Handle> {
        self.uniforms.order()
    }

    /// A registry without entries.
    pub fn new() -> (project: Self)
        ensures
            project.wf(),
            project.shaders() == Map::<Handle, Shader>::empty(),
            project.textures() == Map::<Handle, TextureEntry<T>>::empty(),
            project.uniforms() == Map::<Handle, Uniform<B>>::empty(),
            project.bind_groups() == Map::<Handle, BindGroup<G>>::empty(),
    {
        Project {
            shaders: Store::new(),
            textures: Store::new(),
            uniforms: Store::new(),
            bind_groups: Store::new(),
        }
    }

    /// The number of registered shaders.
    pub fn shader_count(&self) -> (n: usize)
        requires
            self.wf(),
        ensures
            n == self.shaders().len(),
    {
        self.shaders.len()
    }

    /// Registers a shader and issues its handle.
    pub fn register_shader(&mut self, label: &str, source: String) -> (id: ShaderId)
        requires
            old(self).wf(),
            old(self).shaders().len() < MAX_ENTRIES,
        ensures
            final(self).wf(),
            !old(self).shaders().contains_key(id.handle()),
            final(self).shaders().contains_key(id.handle()),
            final(self).shaders()[id.handle()].spec_label() == label@,
            final(self).shaders()[id.handle()].spec_source() == source@,
            final(self).shaders().remove(id.handle()) == old(self).shaders(),
            final(self).textures() == old(self).textures(),
            final(self).texture_order() == old(self).texture_order(),
            final(self).uniforms() == old(self).uniforms(),
            final(self).uniform_order() == old(self).uniform_order(),
            final(self).bind_groups() == old(self).bind_groups(),
    {
        let handle = self.shaders.insert(Shader::new(label, source));
        assert(self.shaders@.remove(handle) =~= old(self).shaders@);
        ShaderId::new(handle)
    }

    /// The shader that `id` refers to, if there is one.
    pub fn get_shader(&self, id: ShaderId) -> (r: Option<&Shader>)
        requires
            self.wf(),
        ensures
            r == (if self.shaders().contains_key(id.handle()) {
                Some(&self.shaders()[id.handle()])
            } else {
                None
            }),
    {
        self.shaders.get(id.handle())
    }

    /// The number of registered textures.
    pub fn texture_count(&self) -> (n: usize)
        requires
            self.wf(),
        ensures
            n == self.textures().len(),
    {
        self.textures.len()
    }

    /// Registers a texture and issues its handle. `texture` is the GPU texture
    /// that was created for it, `egui_id` the id under which it was registered
    /// with the inspector.
    pub fn register_texture(
        &mut self,
        name: &str,
        texture: T,
        egui_id: InspectorTextureId,
        size: Size2d,
    ) -> (id: TextureId)
        requires
            old(self).wf(),
            old(self).textures().len() < MAX_ENTRIES,
        ensures
            final(self).wf(),
            !old(self).textures().contains_key(id.handle()),
            final(self).textures().contains_key(id.handle()),
            final(self).textures()[id.handle()].spec_name() == name@,
            final(self).textures()[id.handle()].spec_texture() == texture,
            final(self).textures()[id.handle()].spec_egui_id() == egui_id,
            final(self).textures()[id.handle()].spec_size() == size,
            final(self).textures().remove(id.handle()) == old(self).textures(),
            final(self).shaders() == old(self).shaders(),
            final(self).uniforms() == old(self).uniforms(),
            final(self).uniform_order() == old(self).uniform_order(),
            final(self).bind_groups() == old(self).bind_groups(),
    {
        let handle = self.textures.insert(TextureEntry::new(name, texture, egui_id, size));
        assert(self.textures@.remove(handle) =~= old(self).textures@);
        TextureId::new(handle)
    }

    /// The texture that `id` refers to, if there is one.
    pub fn get_texture(&self, id: TextureId) -> (r: Option<&TextureEntry<T>>)
        requires
            self.wf(),
        ensures
            r == (if self.textures().contains_key(id.handle()) {
                Some(&self.textures()[id.handle()])
            } else {
                None
            }),
    {
        self.textures.get(id.handle())
    }

    /// The texture that `id` refers to, for changing it in place. No other
    /// entry of the registry changes, and the texture keeps its handle.
    pub fn get_texture_mut(&mut self, id: TextureId) -> (r: Option<&mut TextureEntry<T>>)
        requires
            old(self).wf(),
        ensures
            final(self).wf(),
            old(self).textures().contains_key(id.handle()) ==> r.is_some()
                && *r.unwrap() == old(self).textures()[id.handle()]
                && final(self).textures() == old(self).textures().insert(
                id.handle(),
                *final(r.unwrap()),
            ),
            !old(self).textures().contains_key(id.handle()) ==> r.is_none()
                && final(self).textures() == old(self).textures(),
            final(self).texture_order() == old(self).texture_order(),
            final(self).shaders() == old(self).shaders(),
            final(self).uniforms() == old(self).uniforms(),
            final(self).uniform_order() == old(self).uniform_order(),
            final(self).bind_groups() == old(self).bind_groups(),
    {
        self.textures.get_mut(id.handle())
    }

    /// The handles of the registered textures, each once. The order stays the
    /// same as long as no texture is registered.
    pub fn list_textures(&self) -> (ids: Vec<TextureId>)
        requires
            self.wf(),
        ensures
            ids@.map_values(|id: TextureId| id.handle()) == self.texture_order(),
            ids@.no_duplicates(),
            ids@.map_values(|id: TextureId| id.handle()).to_set() == self.textures().dom(),
    {
        texture_ids(self.textures.handles())
    }

    /// The number of registered uniforms.
    pub fn uniform_count(&self) -> (n: usize)
        requires
            self.wf(),
        ensures
            n == self.uniforms().len(),
    {
        self.uniforms.len()
    }

    /// Registers a uniform and issues its handle. `buffer` is the GPU buffer
    /// that was created with the bytes of `data`; its length stays fixed.
    pub fn register_uniform(&mut self, label: &str, data: UniformData, buffer: B) -> (id: UniformId)
        requires
            old(self).wf(),
            old(self).uniforms().len() < MAX_ENTRIES,
            serialized(data.types()).len() <= usize::MAX,
        ensures
            final(self).wf(),
            !old(self).uniforms().contains_key(id.handle()),
            final(self).uniforms().contains_key(id.handle()),
            final(self).uniforms()[id.handle()].spec_label() == label@,
            final(self).uniforms()[id.handle()].spec_data() == data,
            final(self).uniforms()[id.handle()].spec_buffer() == buffer,
            final(self).uniforms()[id.handle()].spec_buffer_len() == serialized(data.types()).len(),
            final(self).uniforms().remove(id.handle()) == old(self).uniforms(),
            final(self).shaders() == old(self).shaders(),
            final(self).textures() == old(self).textures(),
            final(self).texture_order() == old(self).texture_order(),
            final(self).bind_groups() == old(self).bind_groups(),
    {
        let handle = self.uniforms.insert(Uniform::new(label, data, buffer));
        assert(self.uniforms@.remove(handle) =~= old(self).uniforms@);
        UniformId::new(handle)
    }

    /// The uniform that `id` refers to, if there is one.
    pub fn get_uniform(&self, id: UniformId) -> (r: Option<&Uniform<B>>)
        requires
            self.wf(),
        ensures
            r == (if self.uniforms().contains_key(id.handle()) {
                Some(&self.uniforms()[id.handle()])
            } else {
                None
            }),
    {
        self.uniforms.get(id.handle())
    }

    /// The uniform that `id` refers to, for changing it in place. No other
    /// entry of the registry changes, and the uniform keeps its handle.
    pub fn get_uniform_mut(&mut self, id: UniformId) -> (r: Option<&mut Uniform<B>>)
        requires
            old(self).wf(),
        ensures
            final(self).wf(),
            old(self).uniforms().contains_key(id.handle()) ==> r.is_some()
                && *r.unwrap() == old(self).uniforms()[id.handle()]
                && final(self).uniforms() == old(self).uniforms().insert(
                id.handle(),
                *final(r.unwrap()),
            ),
            !old(self).uniforms().contains_key(id.handle()) ==> r.is_none()
                && final(self).uniforms() == old(self).uniforms(),
            final(self).uniform_order() == old(self).uniform_order(),
            final(self).shaders() == old(self).shaders(),
            final(self).textures() == old(self).textures(),
            final(self).texture_order() == old(self).texture_order(),
            final(self).bind_groups() == old(self).bind_groups(),
    {
        self.uniforms.get_mut(id.handle())
    }

    /// The handles of the registered uniforms, each once. The order stays the
    /// same as long as no uniform is registered.
    pub fn list_uniforms(&self) -> (ids: Vec<UniformId>)
        requires
            self.wf(),
        ensures
            ids@.map_values(|id: UniformId| id.handle()) == self.uniform_order(),
            ids@.no_duplicates(),
            ids@.map_values(|id: UniformId| id.handle()).to_set() == self.uniforms().dom(),
    {
        uniform_ids(self.uniforms.handles())
    }

    /// Writes new data to the uniform that `id` refers to and hands back the
    /// bytes to write to its buffer. The data has to fill the buffer exactly;
    /// where it does not, or where `id` refers to nothing, the registry stays
    /// as it was.
    pub fn update_uniform(&mut self, id: UniformId, data: UniformData) -> (r: Result<
        Vec<u8>,
        UniformError,
    >)
        requires
            old(self).wf(),
            serialized(data.types()).len() <= usize::MAX,
        ensures
            final(self).wf(),
            match r {
                Ok(bytes) => {
                    &&& old(self).uniforms().contains_key(id.handle())
                    &&& serialized(data.types()).len() == old(self).uniforms()[id.handle()].spec_buffer_len()
                    &&& bytes@ == serialized(data.types())
                    &&& final(self).uniforms().dom() == old(self).uniforms().dom()
                    &&& final(self).uniforms()[id.handle()].spec_data() == data
                    &&& final(self).uniforms()[id.handle()].spec_label() == old(self).uniforms()[id.handle()].spec_label()
                    &&& final(self).uniforms()[id.handle()].spec_buffer() == old(self).uniforms()[id.handle()].spec_buffer()
                    &&& final(self).uniforms()[id.handle()].spec_buffer_len() == old(self).uniforms()[id.handle()].spec_buffer_len()
                    &&& final(self).uniforms().remove(id.handle()) == old(self).uniforms().remove(id.handle())
                },
                Err(UniformError::NotFound) => {
                    &&& !old(self).uniforms().contains_key(id.handle())
                    &&& final(self).uniforms() == old(self).uniforms()
                },
                Err(UniformError::LengthMismatch { expected, actual }) => {
                    &&& old(self).uniforms().contains_key(id.handle())
                    &&& expected == old(self).uniforms()[id.handle()].spec_buffer_len()
                    &&& actual == serialized(data.types()).len()
                    &&& expected != actual
                    &&& final(self).uniforms() == old(self).uniforms()
                },
            },
            final(self).uniform_order() == old(self).uniform_order(),
            final(self).shaders() == old(self).shaders(),
            final(self).textures() == old(self).textures(),
            final(self).texture_order() == old(self).texture_order(),
            final(self).bind_groups() == old(self).bind_groups(),
    {
        let r = match self.uniforms.get_mut(id.handle()) {
            Some(uniform) => uniform.set_and_upload(data),
            None => Err(UniformError::NotFound),
        };
        proof {
            if r.is_err() {
                assert(self.uniforms@ =~= old(self).uniforms@);
            }
        }
        r
    }

    /// The number of registered bind groups.
    pub fn bind_group_count(&self) -> (n: usize)
        requires
            self.wf(),
        ensures
            n == self.bind_groups().len(),
    {
        self.bind_groups.len()
    }

    /// Registers a bind group and issues its handle. `group` holds the GPU
    /// objects that were created from the resolved entries. Entries that bind
    /// a slot twice, or that refer to a resource that is not registered, are
    /// refused, and the registry stays as it was.
    pub fn register_bind_group(
        &mut self,
        label: &str,
        entries: Vec<BindGroupEntry>,
        group: G,
    ) -> (r: Result<BindGroupId, BindGroupError>)
        requires
            old(self).wf(),
            old(self).bind_groups().len() < MAX_ENTRIES,
        ensures
            final(self).wf(),
            match r {
                Ok(id) => {
                    &&& bindings_unique(entries@)
                    &&& all_resolve(old(self).textures(), old(self).uniforms(), entries@)
                    &&& !old(self).bind_groups().contains_key(id.handle())
                    &&& final(self).bind_groups().contains_key(id.handle())
                    &&& final(self).bind_groups()[id.handle()].spec_label() == label@
                    &&& final(self).bind_groups()[id.handle()].spec_group() == group
                    &&& final(self).bind_groups()[id.handle()].spec_entries() == entries@
                    &&& final(self).bind_groups().remove(id.handle()) == old(self).bind_groups()
                },
                Err(error) => {
                    &&& !(bindings_unique(entries@) && all_resolve(
                        old(self).textures(),
                        old(self).uniforms(),
                        entries@,
                    ))
                    &&& refused_with(old(self).textures(), old(self).uniforms(), entries@, error)
                    &&& final(self).bind_groups() == old(self).bind_groups()
                },
            },
            final(self).shaders() == old(self).shaders(),
            final(self).textures() == old(self).textures(),
            final(self).texture_order() == old(self).texture_order(),
            final(self).uniforms() == old(self).uniforms(),
            final(self).uniform_order() == old(self).uniform_order(),
    {
        match resolve_bind_group(&*self, &entries) {
            Ok(_) => {},
            Err(error) => {
                return Err(error);
            },
        }
        let handle = self.bind_groups.insert(BindGroup::new(label, group, entries));
        assert(self.bind_groups@.remove(handle) =~= old(self).bind_groups@);
        Ok(BindGroupId::new(handle))
    }

    /// Puts new GPU objects in the place of those of the bind group that `id`
    /// refers to, and hands the old ones back. Where `id` refers to nothing
    /// the registry stays as it was and `group` comes back as the error.
    pub fn replace_bind_group(&mut self, id: BindGroupId, group: G) -> (r: Result<G, G>)
        requires
            old(self).wf(),
        ensures
            final(self).wf(),
            match r {
                Ok(replaced) => {
                    &&& old(self).bind_groups().contains_key(id.handle())
                    &&& replaced == old(self).bind_groups()[id.handle()].spec_group()
                    &&& final(self).bind_groups().dom() == old(self).bind_groups().dom()
                    &&& final(self).bind_groups()[id.handle()].spec_group() == group
                    &&& final(self).bind_groups()[id.handle()].spec_label() == old(
                        self,
                    ).bind_groups()[id.handle()].spec_label()
                    &&& final(self).bind_groups()[id.handle()].spec_entries() == old(
                        self,
                    ).bind_groups()[id.handle()].spec_entries()
                    &&& final(self).bind_groups().remove(id.handle()) == old(
                        self,
                    ).bind_groups().remove(id.handle())
                },
                Err(back) => {
                    &&& !old(self).bind_groups().contains_key(id.handle())
                    &&& back == group
                    &&& final(self).bind_groups() == old(self).bind_groups()
                },
            },
            final(self).shaders() == old(self).shaders(),
            final(self).textures() == old(self).textures(),
            final(self).texture_order() == old(self).texture_order(),
            final(self).uniforms() == old(self).uniforms(),
            final(self).uniform_order() == old(self).uniform_order(),
    {
        match self.bind_groups.get_mut(id.handle()) {
            Some(bind_group) => Ok(bind_group.replace_group(group)),
            None => Err(group),
        }
    }

    /// The bind group that `id` refers to, if there is one. Every resource
    /// that its entries refer to is registered.
    pub fn get_bind_group(&self, id: BindGroupId) -> (r: Option<&BindGroup<G>>)
        requires
            self.wf(),
        ensures
            r == (if self.bind_groups().contains_key(id.handle()) {
                Some(&self.bind_groups()[id.handle()])
            } else {
                None
            }),
            r.is_some() ==> all_resolve(
                self.textures(),
                self.uniforms(),
                r.unwrap().spec_entries(),
            ),
    {
        self.bind_groups.get(id.handle())
    }
}

impl<T, B, G> Default for Project<T, B, G> {
    fn default() -> (project: Self)
        ensures
            project.wf(),
            project.shaders() == Map::<Handle, Shader>::empty(),
            project.textures() == Map::<Handle, TextureEntry<T>>::empty(),
            project.uniforms() == Map::<Handle, Uniform<B>>::empty(),
            project.bind_groups() == Map::<Handle, BindGroup<G>>::empty(),
    {
        Self::new()
    }
}

} // verus!
