//! A handle to a loaded texture: an identifier together with the kind of
//! texture it stands for (diffuse, specular, and so on).

use vstd::prelude::*;

verus! {

/// A texture handle held by a mesh.
pub struct Texture {
    id: usize,
    tex_type: String,
}

impl Texture {
    /// The identifier this handle was created with.
    pub closed spec fn id(&self) -> usize {
        self.id
    }

    /// The kind of texture this handle stands for.
    pub closed spec fn kind(&self) -> Seq<char> {
        self.tex_type@
    }

    /// Creates a handle for texture `id` of kind `tex_type`.
    pub fn new(id: usize, tex_type: String) -> (texture: Texture)
        ensures
            texture.id() == id,
            texture.kind() == tex_type@,
    {
        Texture { id, tex_type }
    }
}

} // verus!
