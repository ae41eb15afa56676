//! Textures: a loader that registers them by name at startup, and the
//! read-only manager it is finished into.
use vstd::prelude::*;

use crate::loader::registry::NameTable;
use crate::loader::shaders::register;

verus! {

/// Width and height of an image, in pixels.
#[derive(Clone, Copy, Debug, PartialEq, Eq, Structural)]
pub struct Dimensions {
    pub width: u32,
    pub height: u32,
}

/// An uploaded texture, by its backend handle, with the size of its image.
#[derive(Clone, Copy, Debug, PartialEq, Eq, Structural)]
pub struct Texture {
    dimensions: Dimensions,
    id: u32,
}

/// A texture as plain values.
pub struct TextureView {
    pub dimensions: Dimensions,
    pub id: u32,
}

impl View for Texture {
    type V = TextureView;

    closed spec fn view(&self) -> TextureView {
        TextureView { dimensions: self.dimensions, id: self.id }
    }
}

impl Texture {
    pub fn new(dimensions: Dimensions, id: u32) -> (t: Texture)
        ensures
            t@ == (TextureView { dimensions, id }),
    {
        Texture { id, dimensions }
    }

    pub fn get_dimensions(&self) -> (r: Dimensions)
        ensures
            r == self@.dimensions,
    {
        self.dimensions
    }

    pub fn get_id(&self) -> (r: u32)
        ensures
            r == self@.id,
    {
        self.id
    }
}

/// Collects textures by name during startup.
pub struct TextureLoader {
    textures: NameTable<Texture>,
}

impl View for TextureLoader {
    type V = Map<Seq<char>, Texture>;

    closed spec fn view(&self) -> Map<Seq<char>, Texture> {
        self.textures@
    }
}

impl TextureLoader {
    #[verifier::type_invariant]
    closed spec fn well_formed(self) -> bool {
        self.textures.wf()
    }

    /// A loader with no texture.
    pub fn new() -> (l: TextureLoader)
        ensures
            l@ == Map::<Seq<char>, Texture>::empty(),
    {
        TextureLoader { textures: NameTable::new() }
    }

    /// Registers `texture` under `texture_name`; a name registered before
    /// keeps its first texture.
    pub fn add_texture(self, texture_name: &str, texture: Texture) -> (l: TextureLoader)
        ensures
            l@ == register(self@, texture_name@, texture),
    {
        proof {
            use_type_invariant(&self);
        }
        let mut textures = self.textures;
        textures.insert_if_absent(texture_name, texture);
        TextureLoader { textures }
    }

    /// The read-only manager of the textures registered so far.
    pub fn finish(&self) -> (m: TextureManager)
        ensures
            m@ == self@,
    {
        proof {
            use_type_invariant(self);
        }
        TextureManager::new(self.textures.snapshot())
    }
}

/// Read-only lookup of textures by name.
pub struct TextureManager {
    textures: NameTable<Texture>,
}

impl View for TextureManager {
    type V = Map<Seq<char>, Texture>;

    closed spec fn view(&self) -> Map<Seq<char>, Texture> {
        self.textures@
    }
}

impl TextureManager {
    #[verifier::type_invariant]
    closed spec fn well_formed(self) -> bool {
        self.textures.wf()
    }

    pub fn new(textures: NameTable<Texture>) -> (m: TextureManager)
        requires
            textures.wf(),
        ensures
            m@ == textures@,
    {
        TextureManager { textures }
    }

    /// The texture registered under `texture_name`, if any.
    pub fn try_get_texture(&self, texture_name: &str) -> (r: Option<&Texture>)
        ensures
            match r {
                Some(t) => self@.contains_key(texture_name@) && *t == self@[texture_name@],
                None => !self@.contains_key(texture_name@),
            },
    {
        proof {
            use_type_invariant(self);
        }
        self.textures.get(texture_name)
    }

    /// The texture registered under `texture_name`, which must exist.
    pub fn get_texture(&self, texture_name: &str) -> (r: &Texture)
        requires
            self@.contains_key(texture_name@),
        ensures
            *r == self@[texture_name@],
    {
        self.try_get_texture(texture_name).unwrap()
    }
}

} // verus!
