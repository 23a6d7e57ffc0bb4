//! Texture entries of the registry.

use crate::size::Size2d;
use crate::store::{Handle, Store, MAX_ENTRIES};
use vstd::prelude::*;

verus! {

/// The handle of a texture in a project.
#[derive(Clone, Copy, Debug, PartialEq, Eq, Hash)]
pub struct TextureId {
    handle: Handle,
}

impl TextureId {
    pub(crate) fn new(handle: Handle) -> (id: Self)
        ensures
            id.spec_handle() == handle,
    {
        TextureId { handle }
    }

    pub closed spec fn spec_handle(&self) -> Handle {
        self.handle
    }

    /// The handle under which the store of textures keeps the texture.
    #[verifier::when_used_as_spec(spec_handle)]
    pub fn handle(&self) -> (h: Handle)
        ensures
            h == self.spec_handle(),
    {
        self.handle
    }
}

/// The id under which the inspector knows a texture.
#[derive(Clone, Copy, Debug, PartialEq, Eq, Hash)]
pub enum InspectorTextureId {
    /// A texture that the inspector allocated itself.
    Managed(u64),
    /// A texture that was registered with the inspector.
    User(u64),
}

/// A texture of the registry: its name, the GPU texture `T` behind it, the id
/// under which the inspector shows it, and its size.
pub struct TextureEntry<T> {
    name: String,
    texture: T,
    egui_id: InspectorTextureId,
    size: Size2d,
}

impl<T> TextureEntry<T> {
    pub closed spec fn spec_name(&self) -> Seq<char> {
        self.name@
    }

    pub closed spec fn spec_texture(&self) -> T {
        self.texture
    }

    pub closed spec fn spec_egui_id(&self) -> InspectorTextureId {
        self.egui_id
    }

    pub closed spec fn spec_size(&self) -> Size2d {
        self.size
    }

    pub fn new(name: &str, texture: T, egui_id: InspectorTextureId, size: Size2d) -> (entry: Self)
        ensures
            entry.spec_name() == name@,
            entry.spec_texture() == texture,
            entry.spec_egui_id() == egui_id,
            entry.spec_size() == size,
    {
        TextureEntry { name: name.to_owned(), texture, egui_id, size }
    }

    pub fn name(&self) -> (name: &str)
        ensures
            name@ == self.spec_name(),
    {
        self.name.as_str()
    }

    #[verifier::when_used_as_spec(spec_egui_id)]
    pub fn egui_id(&self) -> (id: InspectorTextureId)
        ensures
            id == self.spec_egui_id(),
    {
        self.egui_id
    }

    /// The size of the texture, which is at least 1 by 1.
    #[verifier::when_used_as_spec(spec_size)]
    pub fn size(&self) -> (size: Size2d)
        ensures
            size == self.spec_size(),
            size.spec_width() >= 1,
            size.spec_height() >= 1,
    {
        let size = self.size;
        let _ = size.width();
        let _ = size.height();
        size
    }

    pub fn texture(&self) -> (texture: &T)
        ensures
            *texture == self.spec_texture(),
    {
        &self.texture
    }

    /// Puts a GPU texture of the new size in the place of the old one. The
    /// entry keeps its name and the id under which the inspector knows it.
    pub fn resize(&mut self, size: Size2d, texture: T)
        ensures
            final(self).spec_size() == size,
            final(self).spec_texture() == texture,
            final(self).spec_name() == old(self).spec_name(),
            final(self).spec_egui_id() == old(self).spec_egui_id(),
    {
        self.size = size;
        self.texture = texture;
    }
}

/// A registry of textures alone.
pub struct TextureRegistry<T> {
    textures: Store<TextureEntry<T>>,
}

impl<T> TextureRegistry<T> {
    /// Whether the store of the registry is consistent.
    pub closed spec fn wf(&self) -> bool {
        self.textures.wf()
    }

    /// The registered textures.
    pub closed spec fn view(&self) -> Map<Handle, TextureEntry<T>> {
        self.textures@
    }

    /// The handles of the registered textures in the order in which the
    /// registry lists them.
    pub closed spec fn order(&self) -> Seq<Handle> {
        self.textures.order()
    }

    /// A registry without textures.
    pub fn new() -> (registry: Self)
        ensures
            registry.wf(),
            registry@ == Map::<Handle, TextureEntry<T>>::empty(),
    {
        Self { textures: Store::new() }
    }

    /// The number of registered textures.
    pub fn len(&self) -> (n: usize)
        requires
            self.wf(),
        ensures
            n == self@.len(),
    {
        self.textures.len()
    }

    /// Registers a texture and issues its handle. `texture` is the GPU texture
    /// that was created for it, `egui_id` the id under which it was registered
    /// with the inspector.
    pub fn register(
        &mut self,
        name: &str,
        texture: T,
        egui_id: InspectorTextureId,
        size: Size2d,
    ) -> (id: TextureId)
        requires
            old(self).wf(),
            old(self)@.len() < MAX_ENTRIES,
        ensures
            final(self).wf(),
            !old(self)@.contains_key(id.handle()),
            final(self)@.contains_key(id.handle()),
            final(self)@[id.handle()].spec_name() == name@,
            final(self)@[id.handle()].spec_texture() == texture,
            final(self)@[id.handle()].spec_egui_id() == egui_id,
            final(self)@[id.handle()].spec_size() == size,
            final(self)@.remove(id.handle()) == old(self)@,
    {
        let handle = self.textures.insert(TextureEntry::new(name, texture, egui_id, size));
        assert(self.textures@.remove(handle) =~= old(self).textures@);
        TextureId::new(handle)
    }

    /// The texture that `id` refers to, if there is one.
    pub fn get(&self, id: TextureId) -> (r: Option<&TextureEntry<T>>)
        requires
            self.wf(),
        ensures
            r == (if self@.contains_key(id.handle()) {
                Some(&self@[id.handle()])
            } else {
                None
            }),
    {
        self.textures.get(id.handle())
    }

    /// The texture that `id` refers to, for changing it in place. No other
    /// texture changes, and the texture keeps its handle.
    pub fn get_mut(&mut self, id: TextureId) -> (r: Option<&mut TextureEntry<T>>)
        requires
            old(self).wf(),
        ensures
            final(self).wf(),
            old(self)@.contains_key(id.handle()) ==> r.is_some() && *r.unwrap() == old(self)@[id.handle()]
                && final(self)@ == old(self)@.insert(id.handle(), *final(r.unwrap())),
            !old(self)@.contains_key(id.handle()) ==> r.is_none() && final(self)@ == old(self)@,
            final(self).order() == old(self).order(),
    {
        self.textures.get_mut(id.handle())
    }

    /// The handles of the registered textures, each once. The order stays the
    /// same as long as the registry is not changed.
    pub fn list(&self) -> (ids: Vec<TextureId>)
        requires
            self.wf(),
        ensures
            ids@.map_values(|id: TextureId| id.handle()) == self.order(),
            ids@.no_duplicates(),
            ids@.map_values(|id: TextureId| id.handle()).to_set() == self@.dom(),
    {
        texture_ids(self.textures.handles())
    }
}

impl<T> Default for TextureRegistry<T> {
    fn default() -> (registry: Self)
        ensures
            registry.wf(),
            registry@ == Map::<Handle, TextureEntry<T>>::empty(),
    {
        Self::new()
    }
}

/// The handles of a store of textures as texture handles, in the same order.
pub(crate) fn texture_ids(handles: Vec<Handle>) -> (ids: Vec<TextureId>)
    ensures
        ids@.map_values(|id: TextureId| id.handle()) == handles@,
        handles@.no_duplicates() ==> ids@.no_duplicates(),
{
    let mut ids: Vec<TextureId> = Vec::new();
    let mut i: usize = 0;
    while i < handles.len()
        invariant
            i <= handles.len(),
            ids@.len() == i,
            forall|k: int| 0 <= k < i ==> (#[trigger] ids@[k]).handle() == handles@[k],
        decreases handles.len() - i,
    {
        ids.push(TextureId::new(handles[i]));
        i += 1;
    }
    proof {
        assert(ids@.map_values(|id: TextureId| id.handle()) =~= handles@);
        if handles@.no_duplicates() {
            assert forall|a: int, b: int|
                0 <= a < ids@.len() && 0 <= b < ids@.len() && a != b implies ids@[a] != ids@[b] by {
                assert(ids@[a].handle() == handles@[a]);
                assert(ids@[b].handle() == handles@[b]);
            }
        }
    }
    ids
}

} // verus!
