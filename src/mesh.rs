//! Textures, meshes, and the commands that draw a mesh.

#![allow(non_snake_case)]

use vstd::prelude::*;
use crate::decimal::{decimal, push_decimal};
use crate::gl_command::GlCommand;
use crate::shader::Shader_M;

verus! {

/// A texture on the GPU, the sampler kind it feeds, and the file it came from.
#[derive(Debug, Clone)]
pub struct Texture {
    pub id: u32,
    /// The sampler-name prefix, such as `texture_diffuse`.
    pub texture_type: String,
    /// The file name as the material names it; the key of a model's texture cache.
    pub path: String,
}

impl Texture {
    /// An empty texture record: handle 0, no kind, no path.
    pub fn new() -> (t: Texture)
        ensures
            t.id == 0,
            t.texture_type@ == Seq::<char>::empty(),
            t.path@ == Seq::<char>::empty(),
    {
        Texture { id: 0, texture_type: String::new(), path: String::new() }
    }
}

} // verus!

verus! {

/// One vertex attribute binding: its shader location, how many components
/// the shader reads, whether they are 32-bit integers (else 32-bit floats),
/// and the byte offset of its field within a vertex.
#[derive(Debug, Clone, Copy, PartialEq, Eq)]
pub struct VertexAttribute {
    pub location: u32,
    pub components: i32,
    pub integer: bool,
    pub offset: usize,
}

/// Bytes between the starts of two consecutive vertices.
pub const VERTEX_STRIDE: usize = 88;

/// The number of vertex attributes a mesh binds.
pub const VERTEX_ATTRIBUTE_COUNT: usize = 7;

/// Byte sizes of the fields of a vertex, in their order: position (3 floats),
/// normal (3 floats), texture coordinates (2 floats), tangent (3 floats),
/// bitangent (3 floats), four bone indices (`i32`), four bone weights (`f32`).
pub open spec fn vertex_field_sizes() -> Seq<nat> {
    seq![12, 12, 8, 12, 12, 16, 16]
}

/// How many components each attribute declares to the shader: one per
/// float or integer of its field.
pub open spec fn vertex_attribute_components() -> Seq<int> {
    seq![3, 3, 2, 3, 3, 4, 4]
}

/// The one integer attribute: the bone indices, at location 5.
pub open spec fn vertex_attribute_is_integer(k: int) -> bool {
    k == 5
}

/// The sum of the first `k` field sizes: the offset of field `k`.
pub open spec fn field_offset(k: int) -> nat
    decreases k,
{
    if k <= 0 {
        0
    } else {
        field_offset(k - 1) + vertex_field_sizes()[k - 1]
    }
}

/// The binding of attribute `k`.
pub open spec fn vertex_attribute(k: int) -> VertexAttribute {
    VertexAttribute {
        location: k as u32,
        components: vertex_attribute_components()[k] as i32,
        integer: vertex_attribute_is_integer(k),
        offset: field_offset(k) as usize,
    }
}

fn field_size(k: usize) -> (n: usize)
    requires
        k < VERTEX_ATTRIBUTE_COUNT,
    ensures
        n == vertex_field_sizes()[k as int],
{
    match k {
        0 => 12,
        1 => 12,
        2 => 8,
        3 => 12,
        4 => 12,
        5 => 16,
        _ => 16,
    }
}

fn attribute_components(k: usize) -> (n: i32)
    requires
        k < VERTEX_ATTRIBUTE_COUNT,
    ensures
        n == vertex_attribute_components()[k as int],
{
    if k == 2 {
        2
    } else if k < 5 {
        3
    } else {
        4
    }
}

/// The attribute bindings of a vertex buffer, one per field, in location
/// order; each offset is the sum of the sizes of the fields before it.
pub fn vertex_attributes() -> (r: Vec<VertexAttribute>)
    ensures
        r@.len() == VERTEX_ATTRIBUTE_COUNT,
        forall|k: int| 0 <= k < r@.len() ==> r@[k] == vertex_attribute(k),
        field_offset(VERTEX_ATTRIBUTE_COUNT as int) == VERTEX_STRIDE,
{
    let mut r: Vec<VertexAttribute> = Vec::new();
    let mut offset: usize = 0;
    let mut k: usize = 0;
    while k < VERTEX_ATTRIBUTE_COUNT
        invariant
            k <= VERTEX_ATTRIBUTE_COUNT,
            r@.len() == k,
            offset == field_offset(k as int),
            offset <= 88,
            forall|j: int| 0 <= j < k ==> r@[j] == vertex_attribute(j),
        decreases VERTEX_ATTRIBUTE_COUNT - k,
    {
        proof {
            reveal_with_fuel(field_offset, 8);
        }
        r.push(
            VertexAttribute {
                location: k as u32,
                components: attribute_components(k),
                integer: k == 5,
                offset,
            },
        );
        offset = offset + field_size(k);
        k = k + 1;
    }
    proof {
        reveal_with_fuel(field_offset, 8);
    }
    r
}

} // verus!

verus! {

/// The four sampler kinds a mesh can bind.
#[derive(Debug, Clone, Copy, PartialEq, Eq, Structural)]
pub enum TextureKind {
    Diffuse,
    Specular,
    Normal,
    Height,
}

/// The sampler-name prefix of a kind.
pub open spec fn kind_name(k: TextureKind) -> Seq<char> {
    match k {
        TextureKind::Diffuse => "texture_diffuse"@,
        TextureKind::Specular => "texture_specular"@,
        TextureKind::Normal => "texture_normal"@,
        TextureKind::Height => "texture_height"@,
    }
}

/// The kind that a texture's type names, if it names one of the four.
pub open spec fn texture_kind(texture_type: Seq<char>) -> Option<TextureKind> {
    if texture_type == kind_name(TextureKind::Diffuse) {
        Some(TextureKind::Diffuse)
    } else if texture_type == kind_name(TextureKind::Specular) {
        Some(TextureKind::Specular)
    } else if texture_type == kind_name(TextureKind::Normal) {
        Some(TextureKind::Normal)
    } else if texture_type == kind_name(TextureKind::Height) {
        Some(TextureKind::Height)
    } else {
        None
    }
}

/// The four kinds have four different names.
pub proof fn lemma_kind_names_distinct()
    ensures
        forall|a: TextureKind, b: TextureKind| a != b ==> kind_name(a) != kind_name(b),
{
    reveal_strlit("texture_diffuse");
    reveal_strlit("texture_specular");
    reveal_strlit("texture_normal");
    reveal_strlit("texture_height");
    assert(kind_name(TextureKind::Diffuse).len() == 15);
    assert(kind_name(TextureKind::Specular).len() == 16);
    assert(kind_name(TextureKind::Normal).len() == 14);
    assert(kind_name(TextureKind::Height).len() == 14);
    assert(kind_name(TextureKind::Normal)[8] != kind_name(TextureKind::Height)[8]);
}

/// The sampler-name prefix of a kind.
pub fn kind_prefix(k: TextureKind) -> (s: &'static str)
    ensures
        s@ == kind_name(k),
{
    match k {
        TextureKind::Diffuse => "texture_diffuse",
        TextureKind::Specular => "texture_specular",
        TextureKind::Normal => "texture_normal",
        TextureKind::Height => "texture_height",
    }
}

/// The kind that `texture_type` names, or `None` for any other text.
pub fn kind_of(texture_type: &String) -> (r: Option<TextureKind>)
    ensures
        r == texture_kind(texture_type@),
{
    if *texture_type == String::from_str(kind_prefix(TextureKind::Diffuse)) {
        Some(TextureKind::Diffuse)
    } else if *texture_type == String::from_str(kind_prefix(TextureKind::Specular)) {
        Some(TextureKind::Specular)
    } else if *texture_type == String::from_str(kind_prefix(TextureKind::Normal)) {
        Some(TextureKind::Normal)
    } else if *texture_type == String::from_str(kind_prefix(TextureKind::Height)) {
        Some(TextureKind::Height)
    } else {
        None
    }
}

/// How many textures of `textures` have the type `texture_type`.
pub open spec fn type_count(textures: Seq<Texture>, texture_type: Seq<char>) -> nat
    decreases textures.len(),
{
    if textures.len() == 0 {
        0
    } else {
        type_count(textures.drop_last(), texture_type) + if textures.last().texture_type@
            == texture_type {
            1nat
        } else {
            0nat
        }
    }
}

/// The sampler number of texture `i`: its rank, from 1, among the textures
/// of its own type up to and including it.
pub open spec fn sampler_number(textures: Seq<Texture>, i: int) -> nat {
    type_count(textures.take(i + 1), textures[i].texture_type@)
}

/// The sampler uniform that texture `i` is bound to, such as `texture_diffuse2`.
pub open spec fn sampler_name(textures: Seq<Texture>, i: int) -> Seq<char> {
    textures[i].texture_type@ + decimal(sampler_number(textures, i))
}

/// A type count never exceeds the number of textures counted.
pub proof fn lemma_type_count_bound(textures: Seq<Texture>, texture_type: Seq<char>)
    ensures
        type_count(textures, texture_type) <= textures.len(),
    decreases textures.len(),
{
    if textures.len() > 0 {
        lemma_type_count_bound(textures.drop_last(), texture_type);
    }
}

/// One mesh: its vertices, the indices of its triangles, the textures it
/// samples, and the vertex array that holds it on the GPU (0 until uploaded).
/// The vertex type is the host's; the library never reads a vertex.
#[derive(Debug, Clone)]
pub struct Mesh<V> {
    pub vertices: Vec<V>,
    pub indices: Vec<u32>,
    pub textures: Vec<Texture>,
    pub VAO: u32,
}

/// The commands that bind texture `i` of `textures` for `program`: select
/// unit `i`, point the texture's sampler uniform at unit `i`, bind the texture.
pub open spec fn binds_texture(textures: Seq<Texture>, i: int, program: u32, cmds: Seq<GlCommand>) -> bool {
    &&& cmds.len() == 3
    &&& cmds[0] == GlCommand::ActiveTexture { unit: i as u32 }
    &&& cmds[1] matches GlCommand::SetUniformInt { program: p, name, value }
        && p == program && name@ == sampler_name(textures, i) && value == i as i32
    &&& cmds[2] == GlCommand::BindTexture2d { texture: textures[i].id }
}

/// `cmds` draws `mesh` with `program`: each texture bound in order, then the
/// mesh's vertex array bound, one indexed draw of all its indices, and the
/// vertex array unbound.
pub open spec fn draws_mesh<V>(mesh: &Mesh<V>, program: u32, cmds: Seq<GlCommand>) -> bool {
    let n = mesh.textures@.len() as int;
    &&& cmds.len() == 3 * n + 3
    &&& forall|i: int| 0 <= i < n ==> binds_texture(mesh.textures@, i, program, #[trigger] cmds.subrange(3 * i, 3 * i + 3))
    &&& cmds[3 * n] == GlCommand::BindVertexArray { vao: mesh.VAO }
    &&& cmds[3 * n + 1] == GlCommand::DrawElements { count: mesh.indices@.len() as i32 }
    &&& cmds[3 * n + 2] == GlCommand::BindVertexArray { vao: 0 }
}

impl<V> Mesh<V> {
    /// Every texture names one of the four sampler kinds.
    pub open spec fn kinds_known(&self) -> bool {
        forall|i: int| 0 <= i < self.textures@.len() ==> (#[trigger] texture_kind(self.textures@[i].texture_type@)) is Some
    }

    /// What a draw needs: known kinds, and counts that the driver's signed
    /// integers can hold.
    pub open spec fn drawable(&self) -> bool {
        &&& self.kinds_known()
        &&& self.textures@.len() <= i32::MAX
        &&& self.indices@.len() <= i32::MAX
    }

    /// A mesh of the given data, not yet uploaded (vertex array 0).
    pub fn new(vertices: Vec<V>, indices: Vec<u32>, textures: Vec<Texture>) -> (m: Mesh<V>)
        ensures
            m.vertices == vertices,
            m.indices == indices,
            m.textures == textures,
            m.VAO == 0,
    {
        Mesh { vertices, indices, textures, VAO: 0 }
    }

    /// Whether every texture names one of the four sampler kinds.
    pub fn has_known_texture_kinds(&self) -> (r: bool)
        ensures
            r == self.kinds_known(),
    {
        let mut i: usize = 0;
        while i < self.textures.len()
            invariant
                i <= self.textures@.len(),
                forall|j: int| 0 <= j < i ==> (#[trigger] texture_kind(self.textures@[j].texture_type@)) is Some,
            decreases self.textures@.len() - i,
        {
            if kind_of(&self.textures[i].texture_type).is_none() {
                return false;
            }
            i = i + 1;
        }
        true
    }

    /// The commands that draw this mesh with `shader`: texture `i` goes to
    /// unit `i` and its sampler uniform `{type}{n}`, where `n` counts the
    /// textures of the same type from 1; then one indexed draw of all indices.
    pub fn Draw(&self, shader: &Shader_M) -> (r: Vec<GlCommand>)
        requires
            self.drawable(),
        ensures
            draws_mesh(self, shader.programId, r@),
    {
        let ghost ts = self.textures@;
        let ghost program = shader.programId;
        let n = self.textures.len();
        let mut r: Vec<GlCommand> = Vec::new();
        let mut diffuse: u32 = 0;
        let mut specular: u32 = 0;
        let mut normal: u32 = 0;
        let mut height: u32 = 0;
        let mut i: usize = 0;
        while i < n
            invariant
                n == ts.len(),
                ts == self.textures@,
                program == shader.programId,
                self.drawable(),
                i <= n,
                r@.len() == 3 * i,
                diffuse == type_count(ts.take(i as int), kind_name(TextureKind::Diffuse)),
                specular == type_count(ts.take(i as int), kind_name(TextureKind::Specular)),
                normal == type_count(ts.take(i as int), kind_name(TextureKind::Normal)),
                height == type_count(ts.take(i as int), kind_name(TextureKind::Height)),
                forall|j: int| 0 <= j < i ==> binds_texture(ts, j, program, #[trigger] r@.subrange(3 * j, 3 * j + 3)),
            decreases n - i,
        {
            let texture = &self.textures[i];
            let kind = kind_of(&texture.texture_type);
            assert(texture_kind(ts[i as int].texture_type@) is Some);
            let ghost prefix = ts.take(i as int);
            let ghost next = ts.take(i + 1);
            assert(next.drop_last() == prefix);
            assert(next.last() == ts[i as int]);
            proof {
                lemma_kind_names_distinct();
                lemma_type_count_bound(prefix, kind_name(TextureKind::Diffuse));
                lemma_type_count_bound(prefix, kind_name(TextureKind::Specular));
                lemma_type_count_bound(prefix, kind_name(TextureKind::Normal));
                lemma_type_count_bound(prefix, kind_name(TextureKind::Height));
            }
            let number: u32 = match kind {
                Some(TextureKind::Diffuse) => {
                    diffuse = diffuse + 1;
                    diffuse
                },
                Some(TextureKind::Specular) => {
                    specular = specular + 1;
                    specular
                },
                Some(TextureKind::Normal) => {
                    normal = normal + 1;
                    normal
                },
                _ => {
                    height = height + 1;
                    height
                },
            };
            let mut name = texture.texture_type.clone();
            push_decimal(&mut name, number);
            let ghost before = r@;
            r.push(GlCommand::ActiveTexture { unit: i as u32 });
            r.push(GlCommand::SetUniformInt { program: shader.programId, name, value: i as i32 });
            r.push(GlCommand::BindTexture2d { texture: texture.id });
            assert(r@.subrange(3 * i, 3 * i + 3) == seq![r@[3 * i], r@[3 * i + 1], r@[3 * i + 2]]);
            assert forall|j: int| 0 <= j < i + 1 implies binds_texture(ts, j, program, #[trigger] r@.subrange(3 * j, 3 * j + 3)) by {
                if j < i {
                    assert(r@.subrange(3 * j, 3 * j + 3) == before.subrange(3 * j, 3 * j + 3));
                }
            }
            i = i + 1;
        }
        let ghost body = r@;
        r.push(GlCommand::BindVertexArray { vao: self.VAO });
        r.push(GlCommand::DrawElements { count: self.indices.len() as i32 });
        r.push(GlCommand::BindVertexArray { vao: 0 });
        let ghost whole = r@;
        assert forall|j: int| 0 <= j < n implies binds_texture(ts, j, program, #[trigger] whole.subrange(3 * j, 3 * j + 3)) by {
            assert(whole.subrange(3 * j, 3 * j + 3) =~= body.subrange(3 * j, 3 * j + 3));
        }
        r
    }
}

} // verus!

verus! {

/// The index counts of the indexed draw calls in `cmds`, in order.
pub open spec fn indexed_draw_counts(cmds: Seq<GlCommand>) -> Seq<i32>
    decreases cmds.len(),
{
    if cmds.len() == 0 {
        seq![]
    } else {
        indexed_draw_counts(cmds.drop_last()) + match cmds.last() {
            GlCommand::DrawElements { count } => seq![count],
            _ => seq![],
        }
    }
}

proof fn lemma_bindings_draw_nothing<V>(mesh: &Mesh<V>, program: u32, cmds: Seq<GlCommand>, k: int)
    requires
        draws_mesh(mesh, program, cmds),
        0 <= k <= 3 * mesh.textures@.len(),
    ensures
        indexed_draw_counts(cmds.take(k)) == Seq::<i32>::empty(),
    decreases k,
{
    if k > 0 {
        lemma_bindings_draw_nothing(mesh, program, cmds, k - 1);
        let i = (k - 1) / 3;
        assert(0 <= 3 * i <= k - 1 < 3 * i + 3) by (nonlinear_arith)
            requires
                i == (k - 1) / 3,
                k >= 1,
        ;
        let sub = cmds.subrange(3 * i, 3 * i + 3);
        assert(binds_texture(mesh.textures@, i, program, sub));
        assert(cmds[k - 1] == sub[k - 1 - 3 * i]);
        assert(cmds.take(k).drop_last() == cmds.take(k - 1));
        assert(cmds.take(k).last() == cmds[k - 1]);
    }
}

/// A mesh's draw makes exactly one indexed draw call, and it covers every
/// index of the mesh.
pub proof fn lemma_draw_issues_one_indexed_call<V>(mesh: &Mesh<V>, program: u32, cmds: Seq<GlCommand>)
    requires
        draws_mesh(mesh, program, cmds),
    ensures
        indexed_draw_counts(cmds) == seq![mesh.indices@.len() as i32],
{
    let n = 3 * mesh.textures@.len() as int;
    lemma_bindings_draw_nothing(mesh, program, cmds, n);
    assert(cmds.take(n + 1).drop_last() == cmds.take(n));
    assert(cmds.take(n + 2).drop_last() == cmds.take(n + 1));
    assert(cmds.take(n + 3).drop_last() == cmds.take(n + 2));
    assert(cmds.take(n + 3) == cmds);
    assert(indexed_draw_counts(cmds.take(n + 1)) == Seq::<i32>::empty() + Seq::<i32>::empty());
    assert(indexed_draw_counts(cmds.take(n + 2)) =~= seq![mesh.indices@.len() as i32]);
    assert(indexed_draw_counts(cmds.take(n + 3)) =~= seq![mesh.indices@.len() as i32]);
}

} // verus!
