use std::cell::{Cell, RefCell};

use learnopengl_lib::gl_command::GlCommand;
use learnopengl_lib::mesh::{kind_prefix, Mesh, Texture, TextureKind};
use learnopengl_lib::model::{
    flatten_faces, material_slots, mesh_visit_order, sampler_kind, texture_upload, MaterialSlot, Model, PixelFormat,
    PixelLayout, SceneNode, TextureLookup, TextureUpload,
};
use learnopengl_lib::shader::Shader_M;

#[test]
fn same_file_is_uploaded_once() {
    let uploads = Cell::new(0u32);
    let paths = RefCell::new(Vec::new());
    let stub = |path: String| -> u32 {
        uploads.set(uploads.get() + 1);
        paths.borrow_mut().push(path);
        100 + uploads.get()
    };
    let mut model: Model<[f32; 3]> = Model::new("res/backpack".to_string(), false);
    let first = model.load_material_textures(Some("diffuse.jpg".to_string()), "texture_diffuse", &stub);
    let second = model.load_material_textures(Some("diffuse.jpg".to_string()), "texture_diffuse", &stub);
    assert_eq!(uploads.get(), 1);
    assert_eq!(paths.borrow().as_slice(), ["res/backpack/diffuse.jpg".to_string()]);
    assert_eq!(first.len(), 1);
    assert_eq!(second.len(), 1);
    assert_eq!(first[0].id, 101);
    assert_eq!(second[0].id, 101);
    assert_eq!(second[0].path, "diffuse.jpg");
    assert_eq!(second[0].texture_type, "texture_diffuse");
    assert_eq!(model.textures_loaded.len(), 1);
}

#[test]
fn cached_texture_keeps_its_first_type() {
    let stub = |_path: String| -> u32 { 7 };
    let mut model: Model<[f32; 3]> = Model::new("d".to_string(), true);
    model.load_material_textures(Some("n.png".to_string()), "texture_normal", &stub);
    let again = model.load_material_textures(Some("n.png".to_string()), "texture_height", &stub);
    assert_eq!(again[0].texture_type, "texture_normal");
    assert!(model.gammaCorrection);
}

#[test]
fn distinct_files_are_each_uploaded() {
    let uploads = Cell::new(0u32);
    let stub = |_path: String| -> u32 {
        uploads.set(uploads.get() + 1);
        uploads.get()
    };
    let mut model: Model<()> = Model::new("m".to_string(), false);
    let a = model.load_material_textures(Some("a.png".to_string()), "texture_diffuse", &stub);
    let b = model.load_material_textures(Some("b.png".to_string()), "texture_specular", &stub);
    assert_eq!(uploads.get(), 2);
    assert_eq!((a[0].id, b[0].id), (1, 2));
    let paths: Vec<&str> = model.textures_loaded.iter().map(|t| t.path.as_str()).collect();
    assert_eq!(paths, vec!["a.png", "b.png"]);
}

#[test]
fn material_without_texture_gives_nothing() {
    let uploads = Cell::new(0u32);
    let stub = |_path: String| -> u32 {
        uploads.set(uploads.get() + 1);
        1
    };
    let mut model: Model<()> = Model::new("m".to_string(), false);
    let r = model.load_material_textures(None, "texture_diffuse", &stub);
    assert!(r.is_empty());
    assert_eq!(uploads.get(), 0);
    assert!(model.textures_loaded.is_empty());
}

fn tex(id: u32, kind: &str) -> Texture {
    Texture { id, texture_type: kind.to_string(), path: format!("{}.png", id) }
}

#[test]
fn model_draws_each_mesh_in_turn() {
    let mut model: Model<()> = Model::new("m".to_string(), false);
    let mut a = Mesh::new(vec![(), (), ()], vec![0, 1, 2], vec![tex(1, "texture_diffuse")]);
    a.VAO = 1;
    let mut b = Mesh::new(vec![(), (), (), ()], vec![0, 1, 2, 2, 3, 0], vec![]);
    b.VAO = 2;
    model.meshes.push(a);
    model.meshes.push(b);
    let cmds = model.Draw(&Shader_M { programId: 5 });
    assert_eq!(
        cmds,
        vec![
            GlCommand::ActiveTexture { unit: 0 },
            GlCommand::SetUniformInt { program: 5, name: "texture_diffuse1".to_string(), value: 0 },
            GlCommand::BindTexture2d { texture: 1 },
            GlCommand::BindVertexArray { vao: 1 },
            GlCommand::DrawElements { count: 3 },
            GlCommand::BindVertexArray { vao: 0 },
            GlCommand::BindVertexArray { vao: 2 },
            GlCommand::DrawElements { count: 6 },
            GlCommand::BindVertexArray { vao: 0 },
        ]
    );
    let empty: Model<()> = Model::new("m".to_string(), false);
    assert!(empty.Draw(&Shader_M { programId: 5 }).is_empty());
}

fn node(meshes: Vec<u32>, children: Vec<SceneNode>) -> SceneNode {
    SceneNode { meshes, children }
}

#[test]
fn scene_is_walked_depth_first() {
    let root = node(
        vec![4],
        vec![node(vec![0, 1], vec![node(vec![5], vec![])]), node(vec![], vec![node(vec![2], vec![])]), node(vec![3], vec![])],
    );
    assert_eq!(mesh_visit_order(&root), vec![4, 0, 1, 5, 2, 3]);
    assert!(mesh_visit_order(&node(vec![], vec![])).is_empty());
}

#[test]
fn faces_are_flattened_in_order() {
    assert_eq!(flatten_faces(&vec![vec![0, 1, 3], vec![1, 2, 3]]), vec![0, 1, 3, 1, 2, 3]);
    assert_eq!(flatten_faces(&vec![vec![], vec![7]]), vec![7]);
    assert!(flatten_faces(&vec![]).is_empty());
}

#[test]
fn material_slots_map_to_samplers() {
    assert_eq!(
        material_slots(),
        vec![MaterialSlot::Diffuse, MaterialSlot::Specular, MaterialSlot::Height, MaterialSlot::Ambient]
    );
    let names: Vec<&str> = material_slots().into_iter().map(|s| kind_prefix(sampler_kind(s))).collect();
    assert_eq!(names, vec!["texture_diffuse", "texture_specular", "texture_normal", "texture_height"]);
    assert_eq!(sampler_kind(MaterialSlot::Height), TextureKind::Normal);
}

#[test]
fn pixel_layouts_map_to_uploads() {
    assert_eq!(
        texture_upload(PixelLayout::L8),
        Some(TextureUpload { format: PixelFormat::Red, pixels: PixelFormat::Red })
    );
    assert_eq!(
        texture_upload(PixelLayout::Rgb8),
        Some(TextureUpload { format: PixelFormat::Rgb, pixels: PixelFormat::Rgb })
    );
    assert_eq!(
        texture_upload(PixelLayout::Rgba8),
        Some(TextureUpload { format: PixelFormat::Rgba, pixels: PixelFormat::Rgba })
    );
    assert_eq!(texture_upload(PixelLayout::Other), None);
}

#[test]
fn lookup_asks_for_a_load_only_once() {
    let mut model: Model<()> = Model::new("assets".to_string(), false);
    let name = "wall.jpg".to_string();
    match model.lookup_texture(&name) {
        TextureLookup::Load { path } => assert_eq!(path, "assets/wall.jpg"),
        other => panic!("expected a load, got {:?}", other),
    }
    let t = model.record_texture(name.clone(), "texture_diffuse", 9);
    assert_eq!((t.id, t.path.as_str(), t.texture_type.as_str()), (9, "wall.jpg", "texture_diffuse"));
    match model.lookup_texture(&name) {
        TextureLookup::Cached { texture } => assert_eq!(texture.id, 9),
        other => panic!("expected the cached texture, got {:?}", other),
    }
    assert_eq!(model.textures_loaded.len(), 1);
}

#[test]
fn mesh_textures_are_joined_in_slot_order() {
    let uploads = RefCell::new(Vec::new());
    let stub = |path: String| -> u32 {
        uploads.borrow_mut().push(path);
        uploads.borrow().len() as u32
    };
    let mut model: Model<()> = Model::new("m".to_string(), false);
    let first = model.load_mesh_textures(
        Some("d.png".to_string()),
        None,
        Some("h.png".to_string()),
        Some("a.png".to_string()),
        &stub,
    );
    let got: Vec<(u32, &str)> = first.iter().map(|t| (t.id, t.texture_type.as_str())).collect();
    assert_eq!(got, vec![(1, "texture_diffuse"), (2, "texture_normal"), (3, "texture_height")]);
    let second = model.load_mesh_textures(
        Some("d.png".to_string()),
        Some("s.png".to_string()),
        None,
        None,
        &stub,
    );
    let got: Vec<(u32, &str)> = second.iter().map(|t| (t.id, t.texture_type.as_str())).collect();
    assert_eq!(got, vec![(1, "texture_diffuse"), (4, "texture_specular")]);
    assert_eq!(uploads.borrow().as_slice(), ["m/d.png", "m/h.png", "m/a.png", "m/s.png"]);
}
