use learnopengl_lib::decimal::push_decimal;
use learnopengl_lib::gl_command::GlCommand;
use learnopengl_lib::mesh::{kind_of, kind_prefix, vertex_attributes, Mesh, Texture, TextureKind, VERTEX_STRIDE};
use learnopengl_lib::shader::Shader_M;

fn texture(id: u32, texture_type: &str, path: &str) -> Texture {
    Texture { id, texture_type: texture_type.to_string(), path: path.to_string() }
}

fn program(id: u32) -> Shader_M {
    Shader_M { programId: id }
}

fn quad(textures: Vec<Texture>) -> Mesh<[f32; 3]> {
    let vertices = vec![[0.5, 0.5, 0.0], [0.5, -0.5, 0.0], [-0.5, -0.5, 0.0], [-0.5, 0.5, 0.0]];
    Mesh::new(vertices, vec![0, 1, 3, 1, 2, 3], textures)
}

fn draw_counts(cmds: &[GlCommand]) -> Vec<i32> {
    cmds.iter()
        .filter_map(|c| match c {
            GlCommand::DrawElements { count } => Some(*count),
            _ => None,
        })
        .collect()
}

#[test]
fn quad_draw_issues_one_indexed_call_of_six() {
    let mut mesh = quad(vec![]);
    mesh.VAO = 5;
    let cmds = mesh.Draw(&program(3));
    assert_eq!(draw_counts(&cmds), vec![6]);
    assert_eq!(
        cmds,
        vec![
            GlCommand::BindVertexArray { vao: 5 },
            GlCommand::DrawElements { count: 6 },
            GlCommand::BindVertexArray { vao: 0 },
        ]
    );
}

#[test]
fn samplers_are_numbered_per_kind_from_one() {
    let textures = vec![
        texture(10, "texture_diffuse", "a.png"),
        texture(11, "texture_specular", "b.png"),
        texture(12, "texture_diffuse", "c.png"),
        texture(13, "texture_normal", "d.png"),
        texture(14, "texture_height", "e.png"),
    ];
    let mut mesh = quad(textures);
    mesh.VAO = 2;
    let cmds = mesh.Draw(&program(9));
    assert_eq!(cmds.len(), 3 * 5 + 3);
    let names: Vec<(String, i32)> = cmds
        .iter()
        .filter_map(|c| match c {
            GlCommand::SetUniformInt { program, name, value } => {
                assert_eq!(*program, 9);
                Some((name.clone(), *value))
            }
            _ => None,
        })
        .collect();
    assert_eq!(
        names,
        vec![
            ("texture_diffuse1".to_string(), 0),
            ("texture_specular1".to_string(), 1),
            ("texture_diffuse2".to_string(), 2),
            ("texture_normal1".to_string(), 3),
            ("texture_height1".to_string(), 4),
        ]
    );
    assert_eq!(cmds[6], GlCommand::ActiveTexture { unit: 2 });
    assert_eq!(cmds[8], GlCommand::BindTexture2d { texture: 12 });
    assert_eq!(draw_counts(&cmds), vec![6]);
    assert_eq!(cmds[15], GlCommand::BindVertexArray { vao: 2 });
}

#[test]
fn unknown_texture_kind_is_detected() {
    let mesh = quad(vec![texture(1, "texture_diffuse", "a.png"), texture(2, "texture_ambient", "b.png")]);
    assert!(!mesh.has_known_texture_kinds());
    let mesh = quad(vec![texture(1, "texture_diffuse", "a.png")]);
    assert!(mesh.has_known_texture_kinds());
    assert!(quad(vec![]).has_known_texture_kinds());
}

#[test]
fn kinds_are_read_from_their_names() {
    assert_eq!(kind_of(&"texture_diffuse".to_string()), Some(TextureKind::Diffuse));
    assert_eq!(kind_of(&"texture_specular".to_string()), Some(TextureKind::Specular));
    assert_eq!(kind_of(&"texture_normal".to_string()), Some(TextureKind::Normal));
    assert_eq!(kind_of(&"texture_height".to_string()), Some(TextureKind::Height));
    assert_eq!(kind_of(&"texture_diffuse1".to_string()), None);
    assert_eq!(kind_of(&"".to_string()), None);
    assert_eq!(kind_prefix(TextureKind::Normal), "texture_normal");
}

#[test]
fn new_mesh_is_not_uploaded() {
    let mesh = quad(vec![texture(4, "texture_diffuse", "a.png")]);
    assert_eq!(mesh.VAO, 0);
    assert_eq!(mesh.vertices.len(), 4);
    assert_eq!(mesh.indices, vec![0, 1, 3, 1, 2, 3]);
    assert_eq!(mesh.textures[0].id, 4);
}

#[test]
fn empty_texture_record() {
    let t = Texture::new();
    assert_eq!(t.id, 0);
    assert_eq!(t.texture_type, "");
    assert_eq!(t.path, "");
    let c = texture(7, "texture_specular", "s.png").duplicate();
    assert_eq!((c.id, c.texture_type.as_str(), c.path.as_str()), (7, "texture_specular", "s.png"));
}

#[test]
fn vertex_layout_offsets_follow_field_sizes() {
    let attrs = vertex_attributes();
    let got: Vec<(u32, i32, bool, usize)> =
        attrs.iter().map(|a| (a.location, a.components, a.integer, a.offset)).collect();
    assert_eq!(
        got,
        vec![
            (0, 3, false, 0),
            (1, 3, false, 12),
            (2, 2, false, 24),
            (3, 3, false, 32),
            (4, 3, false, 44),
            (5, 4, true, 56),
            (6, 4, false, 72),
        ]
    );
    assert_eq!(VERTEX_STRIDE, 88);
}

#[test]
fn decimal_text() {
    let mut s = String::from("n");
    push_decimal(&mut s, 0);
    assert_eq!(s, "n0");
    let mut s = String::new();
    push_decimal(&mut s, 120);
    assert_eq!(s, "120");
    let mut s = String::new();
    push_decimal(&mut s, u32::MAX);
    assert_eq!(s, "4294967295");
}
