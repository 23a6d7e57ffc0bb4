//! Models as the renderer draws them.

use vstd::prelude::*;

verus! {

/// One mesh of a model: its buffers, the number of its indices and the index
/// of its material among the materials of the model.
pub struct Mesh<B> {
    pub vertex_buffer: B,
    pub index_buffer: B,
    pub num_elements: u32,
    pub material: usize,
}

/// A material of a model, with the bind group that holds its textures.
pub struct Material<G> {
    pub bind_group: G,
}

/// A model: its meshes in the order in which they are drawn, and the materials
/// that the meshes refer to.
pub struct Model<B, G> {
    pub meshes: Vec<Mesh<B>>,
    pub materials: Vec<Material<G>>,
}

/// The element of `slice` at `index`, or the default value of its type where
/// the slice is too short. Mesh data that lacks normals or texture coordinates
/// is read in this way.
pub fn get_or_default<T: Copy + Default>(slice: &[T], index: usize) -> (value: T)
    ensures
        index < slice@.len() ==> value == slice@[index as int],
        index >= slice@.len() ==> call_ensures(T::default, (), value),
{
    if index < slice.len() {
        slice[index]
    } else {
        T::default()
    }
}

} // verus!
