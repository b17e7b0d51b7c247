//! Models: meshes loaded from a scene file, sharing one texture cache.

#![allow(non_snake_case)]

use vstd::prelude::*;
use crate::gl_command::GlCommand;
use crate::mesh::{draws_mesh, kind_name, kind_prefix, Mesh, Texture, TextureKind};
use crate::shader::Shader_M;

verus! {

/// A model: its meshes, the textures it has uploaded so far (each file at
/// most once), the directory its texture files are named relative to, and
/// whether its textures are gamma corrected.
#[derive(Debug)]
pub struct Model<V> {
    pub textures_loaded: Vec<Texture>,
    pub meshes: Vec<Mesh<V>>,
    pub directory: String,
    pub gammaCorrection: bool,
}

/// The first texture in `loaded` that came from the file `path`.
pub open spec fn cached_texture(loaded: Seq<Texture>, path: Seq<char>) -> Option<Texture>
    decreases loaded.len(),
{
    if loaded.len() == 0 {
        None
    } else if loaded[0].path@ == path {
        Some(loaded[0])
    } else {
        cached_texture(loaded.drop_first(), path)
    }
}

/// Where a texture file is read from: the model's directory, a slash, the
/// file name that the material gives.
pub open spec fn texture_file_path(directory: Seq<char>, filename: Seq<char>) -> Seq<char> {
    directory + seq!['/'] + filename
}

/// Looking up the file `filename` in the cache `before` gives texture `t` and
/// leaves the cache `after`: a cached texture is returned as it is and the
/// cache is unchanged; otherwise `t` is a new texture of that file and type,
/// appended to the cache.
pub open spec fn texture_lookup_or_load(
    before: Seq<Texture>,
    filename: Seq<char>,
    texture_type: Seq<char>,
    after: Seq<Texture>,
    t: Texture,
) -> bool {
    match cached_texture(before, filename) {
        Some(c) => t == c && after == before,
        None => t.path@ == filename && t.texture_type@ == texture_type && after == before.push(t),
    }
}

/// `id` is a handle that `upload` may return for the file at `path`.
pub open spec fn uploaded<F: Fn(String) -> u32>(upload: F, path: Seq<char>, id: u32) -> bool {
    exists|p: String| p@ == path && #[trigger] call_ensures(upload, (p,), id)
}

/// What a model's cache holds for a texture file.
#[must_use]
#[derive(Debug)]
pub enum TextureLookup {
    /// The file was loaded before; this is its texture, and nothing is uploaded.
    Cached { texture: Texture },
    /// The file is new; its image is to be uploaded from `path`.
    Load { path: String },
}

/// One load of the material texture `filename` for a sampler type: no file
/// gives nothing and keeps the cache; a file gives the one texture that
/// `texture_lookup_or_load` describes, and a file the cache did not hold was
/// uploaded through `upload` from its path under `directory`.
pub open spec fn material_load<F: Fn(String) -> u32>(
    upload: F,
    directory: Seq<char>,
    before: Seq<Texture>,
    filename: Option<String>,
    texture_type: Seq<char>,
    after: Seq<Texture>,
    out: Seq<Texture>,
) -> bool {
    match filename {
        None => out == Seq::<Texture>::empty() && after == before,
        Some(f) => {
            &&& out.len() == 1
            &&& texture_lookup_or_load(before, f@, texture_type, after, out[0])
            &&& cached_texture(before, f@) is None ==> uploaded(
                upload,
                texture_file_path(directory, f@),
                out[0].id,
            )
        },
    }
}

/// A texture recorded after a cache miss is what the next lookup of its file
/// finds: `lookup_texture` then answers with that texture and asks for no
/// upload, and a second `load_material_textures` of the file gives the same
/// handle and leaves the cache as it is.
pub proof fn lemma_second_load_hits_cache(
    before: Seq<Texture>,
    filename: Seq<char>,
    texture_type: Seq<char>,
    after: Seq<Texture>,
    t: Texture,
    other_type: Seq<char>,
)
    requires
        texture_lookup_or_load(before, filename, texture_type, after, t),
    ensures
        cached_texture(after, filename) == Some(t),
        texture_lookup_or_load(after, filename, other_type, after, t),
    decreases before.len(),
{
    if cached_texture(before, filename) is None {
        lemma_cache_push_finds(before, t, filename);
    }
}

proof fn lemma_cache_push_finds(loaded: Seq<Texture>, t: Texture, filename: Seq<char>)
    requires
        cached_texture(loaded, filename) is None,
        t.path@ == filename,
    ensures
        cached_texture(loaded.push(t), filename) == Some(t),
    decreases loaded.len(),
{
    if loaded.len() > 0 {
        assert(loaded.push(t).drop_first() == loaded.drop_first().push(t));
        lemma_cache_push_finds(loaded.drop_first(), t, filename);
    } else {
        assert(loaded.push(t)[0] == t);
    }
}

impl Texture {
    /// A copy of this texture record.
    pub fn duplicate(&self) -> (r: Texture)
        ensures
            r == *self,
    {
        Texture { id: self.id, texture_type: self.texture_type.clone(), path: self.path.clone() }
    }
}

impl<V> Model<V> {
    /// A model with no meshes and an empty cache, whose texture files are
    /// named relative to `directory`.
    pub fn new(directory: String, gamma: bool) -> (m: Model<V>)
        ensures
            m.textures_loaded@ == Seq::<Texture>::empty(),
            m.meshes@ == Seq::<Mesh<V>>::empty(),
            m.directory == directory,
            m.gammaCorrection == gamma,
    {
        Model { textures_loaded: Vec::new(), meshes: Vec::new(), directory, gammaCorrection: gamma }
    }

    fn find_loaded(&self, filename: &String) -> (r: Option<usize>)
        ensures
            match r {
                Some(i) => i < self.textures_loaded@.len() && cached_texture(
                    self.textures_loaded@,
                    filename@,
                ) == Some(self.textures_loaded@[i as int]),
                None => cached_texture(self.textures_loaded@, filename@) is None,
            },
    {
        let ghost loaded = self.textures_loaded@;
        let n = self.textures_loaded.len();
        let mut i: usize = 0;
        assert(loaded.subrange(0, n as int) == loaded);
        while i < n
            invariant
                loaded == self.textures_loaded@,
                n == loaded.len(),
                i <= n,
                cached_texture(loaded, filename@) == cached_texture(loaded.subrange(i as int, n as int), filename@),
            decreases n - i,
        {
            let ghost rest = loaded.subrange(i as int, n as int);
            assert(rest[0] == loaded[i as int]);
            assert(rest.drop_first() == loaded.subrange(i + 1, n as int));
            if self.textures_loaded[i].path == *filename {
                return Some(i);
            }
            i = i + 1;
        }
        None
    }

    /// What the cache holds for the file `filename`: its texture if the file
    /// was loaded before, in which case nothing is to be uploaded; otherwise
    /// the path its image must be uploaded from, `{directory}/{filename}`.
    pub fn lookup_texture(&self, filename: &String) -> (r: TextureLookup)
        ensures
            match cached_texture(self.textures_loaded@, filename@) {
                Some(t) => r == TextureLookup::Cached { texture: t },
                None => r matches TextureLookup::Load { path } && path@ == texture_file_path(
                    self.directory@,
                    filename@,
                ),
            },
    {
        match self.find_loaded(filename) {
            Some(i) => TextureLookup::Cached { texture: self.textures_loaded[i].duplicate() },
            None => {
                proof {
                    reveal_strlit("/");
                }
                let mut path = self.directory.clone();
                path.append("/");
                path.append(filename.as_str());
                TextureLookup::Load { path }
            },
        }
    }

    /// Records the texture uploaded for a file the cache does not hold yet,
    /// with its handle, file name and sampler type, and returns it.
    pub fn record_texture(&mut self, filename: String, texture_type: &str, id: u32) -> (t: Texture)
        requires
            cached_texture(old(self).textures_loaded@, filename@) is None,
        ensures
            t.id == id,
            t.path@ == filename@,
            t.texture_type@ == texture_type@,
            final(self).textures_loaded@ == old(self).textures_loaded@.push(t),
            final(self).meshes == old(self).meshes,
            final(self).directory == old(self).directory,
            final(self).gammaCorrection == old(self).gammaCorrection,
    {
        let texture = Texture { id, texture_type: String::from_str(texture_type), path: filename };
        let t = texture.duplicate();
        self.textures_loaded.push(texture);
        t
    }

    /// The texture the material names for one sampler type, as a list of at
    /// most one. No file name gives an empty list. A file in the cache gives
    /// the cached texture and leaves the cache as it is. Any other file is
    /// uploaded through `upload` from `{directory}/{filename}`, recorded in the
    /// cache with its file name and `texture_type`, and returned. This is
    /// `lookup_texture` followed, for a file to load, by `upload` and
    /// `record_texture`; their contracts state which files reach `upload`.
    pub fn load_material_textures<F: Fn(String) -> u32>(
        &mut self,
        filename: Option<String>,
        texture_type: &str,
        upload: &F,
    ) -> (r: Vec<Texture>)
        requires
            forall|p: String| call_requires(*upload, (p,)),
        ensures
            final(self).meshes == old(self).meshes,
            final(self).directory == old(self).directory,
            final(self).gammaCorrection == old(self).gammaCorrection,
            material_load(
                *upload,
                old(self).directory@,
                old(self).textures_loaded@,
                filename,
                texture_type@,
                final(self).textures_loaded@,
                r@,
            ),
    {
        let mut r: Vec<Texture> = Vec::new();
        match filename {
            None => {},
            Some(f) => {
                match self.lookup_texture(&f) {
                    TextureLookup::Cached { texture } => {
                        r.push(texture);
                    },
                    TextureLookup::Load { path } => {
                        let ghost p = path;
                        let ghost directory = self.directory@;
                        let id = upload(path);
                        assert(call_ensures(*upload, (p,), id));
                        assert(uploaded(*upload, texture_file_path(directory, f@), id));
                        let t = self.record_texture(f, texture_type, id);
                        r.push(t);
                    },
                }
            },
        }
        r
    }

    /// The textures of one mesh: the material's file for each slot of
    /// `material_slots`, in that order, loaded as `load_material_textures`
    /// does with the slot's sampler type, and joined into one list.
    pub fn load_mesh_textures<F: Fn(String) -> u32>(
        &mut self,
        diffuse: Option<String>,
        specular: Option<String>,
        height: Option<String>,
        ambient: Option<String>,
        upload: &F,
    ) -> (r: Vec<Texture>)
        requires
            forall|p: String| call_requires(*upload, (p,)),
        ensures
            final(self).meshes == old(self).meshes,
            final(self).directory == old(self).directory,
            final(self).gammaCorrection == old(self).gammaCorrection,
            exists|caches: Seq<Seq<Texture>>, parts: Seq<Seq<Texture>>|
                {
                    &&& caches.len() == 5
                    &&& parts.len() == 4
                    &&& caches[0] == old(self).textures_loaded@
                    &&& caches[4] == final(self).textures_loaded@
                    &&& forall|k: int|
                        0 <= k < 4 ==> material_load(
                            *upload,
                            old(self).directory@,
                            caches[k],
                            seq![diffuse, specular, height, ambient][k],
                            kind_name(slot_kind(material_slot_order()[k])),
                            caches[k + 1],
                            #[trigger] parts[k],
                        )
                    &&& r@ == parts.flatten()
                },
    {
        let ghost files = seq![diffuse, specular, height, ambient];
        let ghost directory = self.directory@;
        let ghost mut caches = seq![self.textures_loaded@];
        let ghost mut parts: Seq<Seq<Texture>> = Seq::empty();
        let mut r: Vec<Texture> = Vec::new();

        let mut a = self.load_material_textures(diffuse, kind_prefix(sampler_kind(MaterialSlot::Diffuse)), upload);
        proof {
            parts.lemma_flatten_push(a@);
            parts = parts.push(a@);
            caches = caches.push(self.textures_loaded@);
        }
        r.append(&mut a);
        let mut b = self.load_material_textures(specular, kind_prefix(sampler_kind(MaterialSlot::Specular)), upload);
        proof {
            parts.lemma_flatten_push(b@);
            parts = parts.push(b@);
            caches = caches.push(self.textures_loaded@);
        }
        r.append(&mut b);
        let mut c = self.load_material_textures(height, kind_prefix(sampler_kind(MaterialSlot::Height)), upload);
        proof {
            parts.lemma_flatten_push(c@);
            parts = parts.push(c@);
            caches = caches.push(self.textures_loaded@);
        }
        r.append(&mut c);
        let mut d = self.load_material_textures(ambient, kind_prefix(sampler_kind(MaterialSlot::Ambient)), upload);
        proof {
            parts.lemma_flatten_push(d@);
            parts = parts.push(d@);
            caches = caches.push(self.textures_loaded@);
        }
        r.append(&mut d);
        assert(forall|k: int|
            0 <= k < 4 ==> material_load(
                *upload,
                directory,
                caches[k],
                files[k],
                kind_name(slot_kind(material_slot_order()[k])),
                caches[k + 1],
                #[trigger] parts[k],
            ));
        assert(caches.len() == 5 && parts.len() == 4);
        assert(caches[4] == self.textures_loaded@);
        assert(r@ == parts.flatten());
        r
    }
}

} // verus!

verus! {

impl<V> Model<V> {
    /// Every mesh can be drawn.
    pub open spec fn drawable(&self) -> bool {
        forall|i: int| 0 <= i < self.meshes@.len() ==> (#[trigger] self.meshes@[i]).drawable()
    }

    /// The commands that draw every mesh with `shader`, mesh after mesh.
    pub fn Draw(&self, shader: &Shader_M) -> (r: Vec<GlCommand>)
        requires
            self.drawable(),
        ensures
            exists|parts: Seq<Seq<GlCommand>>|
                {
                    &&& parts.len() == self.meshes@.len()
                    &&& forall|i: int|
                        0 <= i < parts.len() ==> draws_mesh(
                            &self.meshes@[i],
                            shader.programId,
                            #[trigger] parts[i],
                        )
                    &&& r@ == parts.flatten()
                },
    {
        let mut r: Vec<GlCommand> = Vec::new();
        let ghost mut parts: Seq<Seq<GlCommand>> = Seq::empty();
        let mut i: usize = 0;
        while i < self.meshes.len()
            invariant
                self.drawable(),
                i <= self.meshes@.len(),
                parts.len() == i,
                forall|j: int|
                    0 <= j < i ==> draws_mesh(&self.meshes@[j], shader.programId, #[trigger] parts[j]),
                r@ == parts.flatten(),
            decreases self.meshes@.len() - i,
        {
            assert(self.meshes@[i as int].drawable());
            let mut cmds = self.meshes[i].Draw(shader);
            proof {
                parts.lemma_flatten_push(cmds@);
                parts = parts.push(cmds@);
            }
            r.append(&mut cmds);
            i = i + 1;
        }
        r
    }
}

/// A node of a scene graph: the indices of the scene meshes it holds, and
/// its child nodes.
#[derive(Debug)]
pub struct SceneNode {
    pub meshes: Vec<u32>,
    pub children: Vec<SceneNode>,
}

/// The scene meshes of the subtree at `node`, depth first: a node's own
/// meshes in order, then each child's subtree in order.
pub open spec fn mesh_order(node: SceneNode) -> Seq<u32>
    decreases node, 1int, 0int,
{
    node.meshes@ + children_mesh_order(node, node.children@.len() as int)
}

/// The scene meshes of the subtrees of the first `k` children of `node`.
pub open spec fn children_mesh_order(node: SceneNode, k: int) -> Seq<u32>
    decreases node, 0int, k,
{
    if k <= 0 || k > node.children@.len() {
        seq![]
    } else {
        children_mesh_order(node, k - 1) + mesh_order(node.children@[k - 1])
    }
}

fn push_mesh_order(node: &SceneNode, out: &mut Vec<u32>)
    ensures
        final(out)@ == old(out)@ + mesh_order(*node),
    decreases *node, 1int, 0int,
{
    let ghost start = out@;
    let mut i: usize = 0;
    while i < node.meshes.len()
        invariant
            i <= node.meshes@.len(),
            out@ == start + node.meshes@.take(i as int),
        decreases node.meshes@.len() - i,
    {
        out.push(node.meshes[i]);
        assert(node.meshes@.take(i + 1) == node.meshes@.take(i as int).push(node.meshes@[i as int]));
        i = i + 1;
    }
    assert(node.meshes@.take(i as int) == node.meshes@);
    let mut k: usize = 0;
    while k < node.children.len()
        invariant
            k <= node.children@.len(),
            out@ == start + node.meshes@ + children_mesh_order(*node, k as int),
        decreases node.children@.len() - k,
    {
        assert(decreases_to!(*node => node.children@[k as int]));
        push_mesh_order(&node.children[k], out);
        k = k + 1;
    }
}

/// The scene meshes of the graph under `root`, in the order a depth-first
/// walk meets them; the model's meshes are built in this order.
pub fn mesh_visit_order(root: &SceneNode) -> (r: Vec<u32>)
    ensures
        r@ == mesh_order(*root),
{
    let mut r: Vec<u32> = Vec::new();
    push_mesh_order(root, &mut r);
    r
}

/// The vertex indices of a list of faces, face after face.
pub fn flatten_faces(faces: &Vec<Vec<u32>>) -> (r: Vec<u32>)
    ensures
        r@ == faces@.map_values(|f: Vec<u32>| f@).flatten(),
{
    let mut r: Vec<u32> = Vec::new();
    let mut i: usize = 0;
    while i < faces.len()
        invariant
            i <= faces@.len(),
            r@ == faces@.take(i as int).map_values(|f: Vec<u32>| f@).flatten(),
        decreases faces@.len() - i,
    {
        let face = &faces[i];
        let ghost before = r@;
        let mut j: usize = 0;
        while j < face.len()
            invariant
                j <= face@.len(),
                r@ == before + face@.take(j as int),
            decreases face@.len() - j,
        {
            r.push(face[j]);
            assert(face@.take(j + 1) == face@.take(j as int).push(face@[j as int]));
            j = j + 1;
        }
        proof {
            let done = faces@.take(i as int).map_values(|f: Vec<u32>| f@);
            assert(face@.take(j as int) == face@);
            assert(faces@.take(i + 1).map_values(|f: Vec<u32>| f@) == done.push(face@));
            done.lemma_flatten_push(face@);
        }
        i = i + 1;
    }
    assert(faces@.take(i as int) == faces@);
    r
}

} // verus!

verus! {

/// The texture slots of a material that a mesh samples.
#[derive(Debug, Clone, Copy, PartialEq, Eq, Structural)]
pub enum MaterialSlot {
    Diffuse,
    Specular,
    Height,
    Ambient,
}

/// The sampler kind a slot's texture is bound as. Height maps are bound as
/// normal maps and ambient maps as height maps: the samplers of the shaders
/// this library serves are named that way, so the pairing is kept as is.
pub open spec fn slot_kind(slot: MaterialSlot) -> TextureKind {
    match slot {
        MaterialSlot::Diffuse => TextureKind::Diffuse,
        MaterialSlot::Specular => TextureKind::Specular,
        MaterialSlot::Height => TextureKind::Normal,
        MaterialSlot::Ambient => TextureKind::Height,
    }
}

/// The sampler kind a slot's texture is bound as.
pub fn sampler_kind(slot: MaterialSlot) -> (k: TextureKind)
    ensures
        k == slot_kind(slot),
{
    match slot {
        MaterialSlot::Diffuse => TextureKind::Diffuse,
        MaterialSlot::Specular => TextureKind::Specular,
        MaterialSlot::Height => TextureKind::Normal,
        MaterialSlot::Ambient => TextureKind::Height,
    }
}

/// The slots in the order a mesh's textures are loaded and bound.
pub open spec fn material_slot_order() -> Seq<MaterialSlot> {
    seq![MaterialSlot::Diffuse, MaterialSlot::Specular, MaterialSlot::Height, MaterialSlot::Ambient]
}

/// The slots in the order a mesh's textures are loaded and bound.
pub fn material_slots() -> (r: Vec<MaterialSlot>)
    ensures
        r@ == material_slot_order(),
{
    let mut r: Vec<MaterialSlot> = Vec::new();
    r.push(MaterialSlot::Diffuse);
    r.push(MaterialSlot::Specular);
    r.push(MaterialSlot::Height);
    r.push(MaterialSlot::Ambient);
    r
}

/// The pixel layout of a decoded image.
#[derive(Debug, Clone, Copy, PartialEq, Eq, Structural)]
pub enum PixelLayout {
    /// 8-bit luminance.
    L8,
    /// 8-bit red, green, blue.
    Rgb8,
    /// 8-bit red, green, blue, alpha.
    Rgba8,
    /// Any other layout.
    Other,
}

/// A pixel format of texture data.
#[derive(Debug, Clone, Copy, PartialEq, Eq, Structural)]
pub enum PixelFormat {
    Red,
    Rgb,
    Rgba,
}

/// How an image is uploaded: the format the texture is declared with, and
/// the channels the pixels are converted to before the upload.
#[derive(Debug, Clone, Copy, PartialEq, Eq, Structural)]
pub struct TextureUpload {
    pub format: PixelFormat,
    pub pixels: PixelFormat,
}

/// The upload of an image of `layout`; `None` for a layout that cannot be
/// uploaded. The pixels are sent with as many channels as the format declares.
pub open spec fn upload_of(layout: PixelLayout) -> Option<TextureUpload> {
    match layout {
        PixelLayout::L8 => Some(TextureUpload { format: PixelFormat::Red, pixels: PixelFormat::Red }),
        PixelLayout::Rgb8 => Some(TextureUpload { format: PixelFormat::Rgb, pixels: PixelFormat::Rgb }),
        PixelLayout::Rgba8 => Some(TextureUpload { format: PixelFormat::Rgba, pixels: PixelFormat::Rgba }),
        PixelLayout::Other => None,
    }
}

/// The upload of an image of `layout`, or `None` where the layout has none.
pub fn texture_upload(layout: PixelLayout) -> (r: Option<TextureUpload>)
    ensures
        r == upload_of(layout),
{
    match layout {
        PixelLayout::L8 => Some(TextureUpload { format: PixelFormat::Red, pixels: PixelFormat::Red }),
        PixelLayout::Rgb8 => Some(TextureUpload { format: PixelFormat::Rgb, pixels: PixelFormat::Rgb }),
        PixelLayout::Rgba8 => Some(TextureUpload { format: PixelFormat::Rgba, pixels: PixelFormat::Rgba }),
        PixelLayout::Other => None,
    }
}

} // verus!
