use batch_render::batch::{batch, init, is_batchable, update, GameObject, GameState};
use batch_render::buffer::{BufferUpdate, Render3dData, UploadPlan};
use batch_render::mesh::{
    collect_normals, transform_positions, Mesh, MeshRenderData, MeshRenderDataVertexNor,
    MeshRenderDataVertexPos, Transform,
};
use glam::{Quat, Vec3};

fn bits(x: f32, y: f32, z: f32) -> (u32, u32, u32) {
    (x.to_bits(), y.to_bits(), z.to_bits())
}

fn grid(count: usize) -> Vec<Vec3> {
    let mut out = Vec::new();
    for k in 0..count {
        out.push(Vec3::new(k as f32, 2.0 * k as f32, -(k as f32)));
    }
    out
}

fn quad_mesh() -> Mesh {
    Mesh {
        pos: vec![
            Vec3::new(-1.0, -1.0, 0.0),
            Vec3::new(1.0, -1.0, 0.0),
            Vec3::new(1.0, 1.0, 0.0),
            Vec3::new(-1.0, 1.0, 0.0),
        ],
        nor: Vec::new(),
        ind: vec![0, 1, 2, 0, 2, 3],
    }
}

fn box_mesh() -> Mesh {
    Mesh {
        pos: grid(8),
        nor: Vec::new(),
        ind: vec![0, 1, 2, 2, 3, 0, 4, 5, 6, 6, 7, 4],
    }
}

fn triangle_mesh() -> Mesh {
    Mesh { pos: grid(3), nor: Vec::new(), ind: vec![2, 1, 0] }
}

fn placed<'a>(name: &'a str, mesh: &'a Mesh) -> GameObject<'a> {
    GameObject { name, transform: Transform::id(), mesh }
}

#[test]
fn batch_counts_are_sums_and_indices_in_range() {
    let (a, b, c) = (quad_mesh(), box_mesh(), triangle_mesh());
    let objects = vec![placed("a", &a), placed("b", &b), placed("c", &c)];
    let mut data = Render3dData::new(100);
    batch(&objects, &mut data);
    assert_eq!(data.pos.len(), 4 + 8 + 3);
    assert_eq!(data.nor.len(), 4 + 8 + 3);
    assert_eq!(data.ind.len(), 6 + 12 + 3);
    assert!(data.ind.iter().all(|&i| (i as usize) < 15));
}

#[test]
fn batch_rebiases_indices_by_prefix_sum() {
    let (a, b, c) = (quad_mesh(), box_mesh(), triangle_mesh());
    let objects = vec![placed("a", &a), placed("b", &b), placed("c", &c)];
    let mut data = Render3dData::new(100);
    batch(&objects, &mut data);
    assert_eq!(
        data.ind,
        vec![0, 1, 2, 0, 2, 3, 4, 5, 6, 6, 7, 4, 8, 9, 10, 10, 11, 8, 14, 13, 12]
    );
}

#[test]
fn batch_drops_what_was_staged_before() {
    let (a, c) = (quad_mesh(), triangle_mesh());
    let mut data = Render3dData::new(100);
    batch(&[placed("a", &a), placed("c", &c)], &mut data);
    batch(&[placed("c", &c)], &mut data);
    assert_eq!(data.pos.len(), 3);
    assert_eq!(data.ind, vec![2, 1, 0]);
}

#[test]
fn batch_keeps_vertices_of_mesh_without_indices() {
    let points = Mesh { pos: grid(5), nor: Vec::new(), ind: Vec::new() };
    let c = triangle_mesh();
    let objects = vec![placed("points", &points), placed("c", &c)];
    let mut data = Render3dData::new(100);
    batch(&objects, &mut data);
    assert_eq!(data.pos.len(), 8);
    assert_eq!(data.ind, vec![7, 6, 5]);

    let mut alone = Render3dData::new(100);
    batch(&[placed("points", &points)], &mut alone);
    assert_eq!(alone.pos.len(), 5);
    assert_eq!(alone.ind.len(), 0);
}

#[test]
fn batch_of_nothing_uploads_nothing() {
    let mut data = Render3dData::new(100);
    let plan = batch(&[], &mut data);
    assert_eq!(plan, UploadPlan { vertices: None, indices: None });
    assert_eq!((data.vbo_len, data.ibo_len), (100, 100));
    assert!(data.pos.is_empty() && data.ind.is_empty());
}

#[test]
fn batch_reports_the_upload() {
    let (a, c) = (quad_mesh(), triangle_mesh());
    let objects = vec![placed("a", &a), placed("c", &c)];
    let mut data = Render3dData::new(7);
    let plan = batch(&objects, &mut data);
    assert_eq!(
        plan,
        UploadPlan {
            vertices: Some(BufferUpdate::Overwrite),
            indices: Some(BufferUpdate::Reallocate { len: 9 }),
        }
    );
    assert_eq!((data.vbo_len, data.ibo_len), (7, 9));
}

#[test]
fn batch_moves_positions_into_world_space() {
    let mesh = Mesh {
        pos: vec![Vec3::new(1.0, 1.0, 1.0), Vec3::new(0.0, -2.0, 0.5)],
        nor: Vec::new(),
        ind: vec![0, 1, 0],
    };
    let transform = Transform {
        position: Vec3::new(1.0, 2.0, 3.0),
        rotation: Quat::IDENTITY,
        scale: Vec3::new(2.0, 2.0, 4.0),
    };
    let objects = vec![GameObject { name: "moved", transform, mesh: &mesh }];
    let mut data = Render3dData::new(100);
    batch(&objects, &mut data);
    assert_eq!(
        data.pos,
        vec![
            MeshRenderDataVertexPos { position: bits(3.0, 4.0, 7.0) },
            MeshRenderDataVertexPos { position: bits(1.0, -2.0, 5.0) },
        ]
    );
}

#[test]
fn batch_rotates_positions() {
    let mesh = Mesh { pos: vec![Vec3::new(1.0, 0.0, 0.0)], nor: Vec::new(), ind: Vec::new() };
    // Half a turn about the vertical axis.
    let transform = Transform {
        position: Vec3::ZERO,
        rotation: Quat::from_xyzw(0.0, 1.0, 0.0, 0.0),
        scale: Vec3::ONE,
    };
    let objects = vec![GameObject { name: "turned", transform, mesh: &mesh }];
    let mut data = Render3dData::new(100);
    batch(&objects, &mut data);
    let (x, y, z) = data.pos[0].position;
    assert_eq!(f32::from_bits(x), -1.0);
    assert_eq!(f32::from_bits(y), 0.0);
    assert_eq!(f32::from_bits(z), 0.0);
}

#[test]
fn batch_zero_fills_missing_normals_and_keeps_given_ones() {
    let bare = triangle_mesh();
    let lit = Mesh {
        pos: grid(3),
        nor: vec![Vec3::new(0.0, 0.0, 1.0), Vec3::new(0.0, 1.0, 0.0), Vec3::new(1.0, 0.0, 0.0)],
        ind: vec![0, 1, 2],
    };
    let objects = vec![placed("bare", &bare), placed("lit", &lit)];
    let mut data = Render3dData::new(100);
    batch(&objects, &mut data);
    let zero = MeshRenderDataVertexNor { normal: (0, 0, 0) };
    assert_eq!(
        data.nor,
        vec![
            zero,
            zero,
            zero,
            MeshRenderDataVertexNor { normal: bits(0.0, 0.0, 1.0) },
            MeshRenderDataVertexNor { normal: bits(0.0, 1.0, 0.0) },
            MeshRenderDataVertexNor { normal: bits(1.0, 0.0, 0.0) },
        ]
    );
}

#[test]
fn transform_positions_under_identity_keeps_points() {
    let mesh = quad_mesh();
    let out = transform_positions(&Transform::id(), &mesh);
    assert_eq!(out.len(), 4);
    assert_eq!(out[0].position, bits(-1.0, -1.0, 0.0));
    assert_eq!(out[2].position, bits(1.0, 1.0, 0.0));
}

#[test]
fn transform_positions_translates() {
    let mesh = quad_mesh();
    let mut transform = Transform::id();
    transform.position = Vec3::new(10.0, 20.0, 30.0);
    let out = transform_positions(&transform, &mesh);
    assert_eq!(out[0].position, bits(9.0, 19.0, 30.0));
    assert_eq!(out[1].position, bits(11.0, 19.0, 30.0));
}

#[test]
fn collect_normals_zero_fills_on_length_mismatch() {
    let mesh = Mesh { pos: grid(3), nor: vec![Vec3::new(0.0, 0.0, 1.0)], ind: Vec::new() };
    let out = collect_normals(&mesh);
    assert_eq!(out, vec![MeshRenderDataVertexNor { normal: (0, 0, 0) }; 3]);
}

#[test]
fn transform_id_is_the_identity() {
    let t = Transform::id();
    assert_eq!(t.position, Vec3::ZERO);
    assert_eq!(t.rotation, Quat::IDENTITY);
    assert_eq!(t.scale, Vec3::ONE);
    assert_eq!(t.scale.x.to_bits(), batch_render::math::ONE_BITS);
}

#[test]
fn transform_model_scales_rotates_translates() {
    let t = Transform {
        position: Vec3::new(1.0, 2.0, 3.0),
        rotation: Quat::from_xyzw(0.0, 0.0, 1.0, 0.0),
        scale: Vec3::new(2.0, 3.0, 4.0),
    };
    let m = t.model();
    assert_eq!(m, glam::Mat4::from_scale_rotation_translation(t.scale, t.rotation, t.position));
    assert_eq!(m.w_axis, glam::Vec4::new(1.0, 2.0, 3.0, 1.0));
    assert_eq!(m.x_axis, glam::Vec4::new(-2.0, 0.0, 0.0, 0.0));
    assert_eq!(m.z_axis, glam::Vec4::new(0.0, 0.0, 4.0, 0.0));
}

#[test]
fn mesh_well_formedness_is_decided() {
    assert!(quad_mesh().is_well_formed());
    assert!(Mesh { pos: Vec::new(), nor: Vec::new(), ind: Vec::new() }.is_well_formed());
    let out_of_range = Mesh { pos: grid(3), nor: Vec::new(), ind: vec![0, 1, 3] };
    assert!(!out_of_range.is_well_formed());
    let not_triangles = Mesh { pos: grid(3), nor: Vec::new(), ind: vec![0, 1] };
    assert!(!not_triangles.is_well_formed());
}

#[test]
fn batchable_scenes_are_recognised() {
    let (a, c) = (quad_mesh(), triangle_mesh());
    let bad = Mesh { pos: grid(2), nor: Vec::new(), ind: vec![0, 1, 2] };
    assert!(is_batchable(&[]));
    assert!(is_batchable(&[placed("a", &a), placed("c", &c)]));
    assert!(!is_batchable(&[placed("a", &a), placed("bad", &bad)]));
}

#[test]
fn mesh_render_data_copies_the_mesh() {
    let mesh = Mesh {
        pos: vec![Vec3::new(0.5, -0.25, 8.0), Vec3::new(1.0, 2.0, 3.0), Vec3::ZERO],
        nor: vec![Vec3::ONE, Vec3::ONE, Vec3::ONE],
        ind: vec![2, 0, 1],
    };
    let data = MeshRenderData::new(&mesh);
    assert!(std::ptr::eq(data.mesh, &mesh));
    assert_eq!(
        data.vps,
        vec![
            MeshRenderDataVertexPos { position: bits(0.5, -0.25, 8.0) },
            MeshRenderDataVertexPos { position: bits(1.0, 2.0, 3.0) },
            MeshRenderDataVertexPos { position: (0, 0, 0) },
        ]
    );
    assert_eq!(data.nor, vec![MeshRenderDataVertexNor { normal: (0, 0, 0) }; 3]);
    assert_eq!(data.ind, vec![2, 0, 1]);
}

#[test]
fn init_builds_the_two_object_scene() {
    let (quad, cube) = (quad_mesh(), box_mesh());
    let gs = init(&quad, &cube, Vec3::new(0.0, 0.1, 0.1), Vec3::new(0.1, 0.1, 0.1));
    assert!(!gs.is_pixelated);
    assert_eq!(gs.game_objects.len(), 2);
    assert_eq!(gs.game_objects[0].name, "test");
    assert_eq!(gs.game_objects[1].name, "cube");
    assert!(std::ptr::eq(gs.game_objects[0].mesh, &quad));
    assert!(std::ptr::eq(gs.game_objects[1].mesh, &cube));
    assert_eq!(gs.game_objects[0].transform.scale, Vec3::new(0.0, 0.1, 0.1));
    assert_eq!(gs.game_objects[1].transform.scale, Vec3::new(0.1, 0.1, 0.1));
    assert_eq!(gs.game_objects[0].transform.position, Vec3::ZERO);
    assert_eq!(gs.game_objects[1].transform.rotation, Quat::IDENTITY);
}

#[test]
fn update_turns_the_second_object_only() {
    let (quad, cube) = (quad_mesh(), box_mesh());
    let mut gs: GameState = init(&quad, &cube, Vec3::ONE, Vec3::new(2.0, 2.0, 2.0));
    let quarter = Quat::from_xyzw(0.0, 0.5f32.sqrt(), 0.0, 0.5f32.sqrt());
    update(&mut gs, quarter);
    assert_eq!(gs.game_objects[0].transform.rotation, Quat::IDENTITY);
    assert_eq!(gs.game_objects[1].transform.rotation, quarter * Quat::IDENTITY);
    update(&mut gs, quarter);
    assert_eq!(gs.game_objects[1].transform.rotation, quarter * quarter);
    assert_eq!(gs.game_objects[1].transform.scale, Vec3::new(2.0, 2.0, 2.0));
    assert_eq!(gs.game_objects[1].name, "cube");
    assert_eq!(gs.game_objects.len(), 2);
}
