//! The batcher: many transformed meshes become one staged triangle list.

use vstd::prelude::*;
use crate::buffer::{len_after_upload, plan_for, rebased, zero_normals, Render3dData, UploadPlan};
use crate::math::{
    component_bits, compose_rotations, is_rotation_product, rotation_bits, ONE_BITS,
};
use crate::mesh::{
    collect_normals, staged_normals, transform_positions, world_positions, zero_normal, Mesh,
    MeshRenderDataVertexNor, MeshRenderDataVertexPos, Transform,
};

verus! {

/// A mesh placed in the world.
pub struct GameObject<'a> {
    pub name: &'a str,
    pub transform: Transform,
    pub mesh: &'a Mesh,
}

/// The objects of a scene, in the order in which they are batched.
pub struct GameState<'a> {
    pub game_objects: Vec<GameObject<'a>>,
    pub is_pixelated: bool,
}

/// Number of vertices of all `objects` together.
pub open spec fn vertex_count(objects: Seq<GameObject>) -> nat
    decreases objects.len(),
{
    if objects.len() == 0 {
        0
    } else {
        vertex_count(objects.drop_last()) + objects.last().mesh.pos@.len()
    }
}

/// Number of indices of all `objects` together.
pub open spec fn index_count(objects: Seq<GameObject>) -> nat
    decreases objects.len(),
{
    if objects.len() == 0 {
        0
    } else {
        index_count(objects.drop_last()) + objects.last().mesh.ind@.len()
    }
}

/// The world-space positions of `objects`, object after object.
pub open spec fn batched_positions(objects: Seq<GameObject>) -> Seq<MeshRenderDataVertexPos>
    decreases objects.len(),
{
    if objects.len() == 0 {
        Seq::empty()
    } else {
        batched_positions(objects.drop_last()) + world_positions(
            objects.last().transform,
            objects.last().mesh.pos@,
        )
    }
}

/// The normals of `objects`, object after object, zero where a mesh has none.
pub open spec fn batched_normals(objects: Seq<GameObject>) -> Seq<MeshRenderDataVertexNor>
    decreases objects.len(),
{
    if objects.len() == 0 {
        Seq::empty()
    } else {
        batched_normals(objects.drop_last()) + staged_normals(*objects.last().mesh)
    }
}

/// The indices of `objects`, object after object, each raised by the number
/// of vertices of the objects before its own.
pub open spec fn batched_indices(objects: Seq<GameObject>) -> Seq<u32>
    decreases objects.len(),
{
    if objects.len() == 0 {
        Seq::empty()
    } else {
        batched_indices(objects.drop_last()) + rebased(
            objects.last().mesh.ind@,
            vertex_count(objects.drop_last()) as int,
        )
    }
}

/// Every mesh is well formed, and the vertices can be numbered in 32 bits.
pub open spec fn batchable(objects: Seq<GameObject>) -> bool {
    &&& forall|i: int| 0 <= i < objects.len() ==> (#[trigger] objects[i]).mesh.well_formed()
    &&& vertex_count(objects) <= u32::MAX
}

/// The batched arrays are as long as the counts say.
pub proof fn lemma_batched_lengths(objects: Seq<GameObject>)
    ensures
        batched_positions(objects).len() == vertex_count(objects),
        batched_normals(objects).len() == vertex_count(objects),
        batched_indices(objects).len() == index_count(objects),
    decreases objects.len(),
{
    if objects.len() > 0 {
        lemma_batched_lengths(objects.drop_last());
    }
}

/// A prefix of a scene has no more vertices and no more indices than the
/// scene.
pub proof fn lemma_prefix_counts(objects: Seq<GameObject>, n: int)
    requires
        0 <= n <= objects.len(),
    ensures
        vertex_count(objects.take(n)) <= vertex_count(objects),
        index_count(objects.take(n)) <= index_count(objects),
        n < objects.len() ==> vertex_count(objects.take(n)) + objects[n].mesh.pos@.len()
            <= vertex_count(objects),
        n < objects.len() ==> index_count(objects.take(n)) + objects[n].mesh.ind@.len()
            <= index_count(objects),
    decreases objects.len(),
{
    if n == objects.len() {
        assert(objects.take(n) =~= objects);
    } else {
        let shorter = objects.drop_last();
        assert(shorter.take(n) =~= objects.take(n));
        lemma_prefix_counts(shorter, n);
        if n < shorter.len() {
            assert(shorter[n] == objects[n]);
        } else {
            assert(shorter.take(n) =~= shorter);
        }
    }
}

/// A prefix of a batchable scene is batchable.
pub proof fn lemma_prefix_batchable(objects: Seq<GameObject>, n: int)
    requires
        0 <= n <= objects.len(),
        batchable(objects),
    ensures
        batchable(objects.take(n)),
{
    lemma_prefix_counts(objects, n);
    assert forall|i: int| 0 <= i < objects.take(n).len() implies (#[trigger] objects.take(
        n,
    )[i]).mesh.well_formed() by {
        assert(objects.take(n)[i] == objects[i]);
    }
}

/// After batching, the staged positions number as many as the vertices of all
/// meshes, the staged indices as many as their indices, and every staged
/// index names a staged position.
pub proof fn lemma_batch_counts(objects: Seq<GameObject>)
    requires
        batchable(objects),
    ensures
        batched_positions(objects).len() == vertex_count(objects),
        batched_indices(objects).len() == index_count(objects),
        forall|k: int|
            0 <= k < batched_indices(objects).len() ==> 0 <= (#[trigger] batched_indices(
                objects,
            )[k]) < vertex_count(objects),
    decreases objects.len(),
{
    lemma_batched_lengths(objects);
    if objects.len() > 0 {
        let shorter = objects.drop_last();
        let last = objects.last();
        assert(shorter =~= objects.take(objects.len() - 1));
        lemma_prefix_batchable(objects, objects.len() - 1);
        lemma_batch_counts(shorter);
        lemma_batched_lengths(shorter);
        let base = vertex_count(shorter) as int;
        assert forall|k: int| 0 <= k < batched_indices(objects).len() implies 0 <= (
        #[trigger] batched_indices(objects)[k]) < vertex_count(objects) by {
            if k >= index_count(shorter) {
                let local = k - index_count(shorter);
                assert(batched_indices(objects)[k] == rebased(last.mesh.ind@, base)[local]);
                assert(last.mesh.ind@[local] < last.mesh.pos@.len());
            } else {
                assert(batched_indices(objects)[k] == batched_indices(shorter)[k]);
            }
        }
    }
}

/// Rebiasing is a prefix sum: the `k`-th index of the `i`-th object is staged
/// behind the indices of the objects before it, and its value is the local
/// index plus the number of vertices of the objects before it.
pub proof fn lemma_index_rebias(objects: Seq<GameObject>, i: int, k: int)
    requires
        batchable(objects),
        0 <= i < objects.len(),
        0 <= k < objects[i].mesh.ind@.len(),
    ensures
        index_count(objects.take(i)) + k < batched_indices(objects).len(),
        batched_indices(objects)[index_count(objects.take(i)) + k] == vertex_count(
            objects.take(i),
        ) + objects[i].mesh.ind@[k],
    decreases objects.len(),
{
    let shorter = objects.drop_last();
    assert(shorter =~= objects.take(objects.len() - 1));
    lemma_batched_lengths(objects);
    lemma_batched_lengths(shorter);
    lemma_prefix_counts(objects, i);
    if i == objects.len() - 1 {
        let base = vertex_count(shorter) as int;
        assert(objects[i].mesh.ind@[k] < objects[i].mesh.pos@.len());
        assert(batched_indices(objects)[index_count(shorter) + k] == rebased(
            objects[i].mesh.ind@,
            base,
        )[k]);
    } else {
        lemma_prefix_batchable(objects, objects.len() - 1);
        assert(shorter.take(i) =~= objects.take(i));
        assert(shorter[i] == objects[i]);
        lemma_prefix_counts(shorter, i);
        lemma_index_rebias(shorter, i, k);
        assert(batched_indices(objects)[index_count(objects.take(i)) + k] == batched_indices(
            shorter,
        )[index_count(objects.take(i)) + k]);
    }
}

/// An object whose mesh has positions but no indices adds its vertices to the
/// batch and leaves the indices as they were.
pub proof fn lemma_object_without_indices(objects: Seq<GameObject>, object: GameObject)
    requires
        object.mesh.ind@.len() == 0,
    ensures
        batched_indices(objects.push(object)) == batched_indices(objects),
        index_count(objects.push(object)) == index_count(objects),
        vertex_count(objects.push(object)) == vertex_count(objects) + object.mesh.pos@.len(),
        batched_positions(objects.push(object)).len() == batched_positions(objects).len()
            + object.mesh.pos@.len(),
{
    let longer = objects.push(object);
    assert(longer.drop_last() =~= objects);
    assert(longer.last() == object);
    assert(batched_indices(longer) =~= batched_indices(objects));
    lemma_batched_lengths(longer);
    lemma_batched_lengths(objects);
}

/// Decides `batchable`, for a caller that cannot vouch for its scene.
pub fn is_batchable(game_objects: &[GameObject]) -> (ok: bool)
    ensures
        ok == batchable(game_objects@),
{
    let limit: usize = 0xffff_ffff;
    let mut total: usize = 0;
    let mut i: usize = 0;
    while i < game_objects.len()
        invariant
            i <= game_objects@.len(),
            limit == u32::MAX,
            total == vertex_count(game_objects@.take(i as int)),
            total <= limit,
            forall|j: int| 0 <= j < i ==> (#[trigger] game_objects@[j]).mesh.well_formed(),
        decreases game_objects@.len() - i,
    {
        let mesh = game_objects[i].mesh;
        proof {
            assert(game_objects@.take(i + 1).drop_last() =~= game_objects@.take(i as int));
            assert(game_objects@.take(i + 1).last() == game_objects@[i as int]);
            lemma_prefix_counts(game_objects@, i + 1);
        }
        if !mesh.is_well_formed() {
            return false;
        }
        if mesh.pos.len() > limit - total {
            return false;
        }
        total = total + mesh.pos.len();
        i += 1;
    }
    assert(game_objects@.take(i as int) =~= game_objects@);
    true
}

/// The scene at start: the quad, named "test", and the cube, named "cube",
/// each at the origin, not rotated, with the given scale; not pixelated.
pub fn init<'a>(quad: &'a Mesh, cube: &'a Mesh, quad_scale: glam::Vec3, cube_scale: glam::Vec3) -> (gs:
    GameState<'a>)
    ensures
        !gs.is_pixelated,
        gs.game_objects@.len() == 2,
        gs.game_objects@[0].name@ == "test"@,
        gs.game_objects@[0].mesh == quad,
        gs.game_objects@[0].transform.scale == quad_scale,
        component_bits(gs.game_objects@[0].transform.position) == (0u32, 0u32, 0u32),
        rotation_bits(gs.game_objects@[0].transform.rotation) == (0u32, 0u32, 0u32, ONE_BITS),
        gs.game_objects@[1].name@ == "cube"@,
        gs.game_objects@[1].mesh == cube,
        gs.game_objects@[1].transform.scale == cube_scale,
        component_bits(gs.game_objects@[1].transform.position) == (0u32, 0u32, 0u32),
        rotation_bits(gs.game_objects@[1].transform.rotation) == (0u32, 0u32, 0u32, ONE_BITS),
{
    let mut quad_transform = Transform::id();
    quad_transform.scale = quad_scale;
    let mut cube_transform = Transform::id();
    cube_transform.scale = cube_scale;
    let mut game_objects: Vec<GameObject<'a>> = Vec::new();
    game_objects.push(GameObject { name: "test", transform: quad_transform, mesh: quad });
    game_objects.push(GameObject { name: "cube", transform: cube_transform, mesh: cube });
    GameState { game_objects, is_pixelated: false }
}

/// Stages `game_objects` in order into `render_data` and decides the upload.
/// What was staged before is dropped. Each position is moved into world
/// space by its object's transform; each index is raised by the number of
/// vertices of the objects before its own.
pub fn batch(game_objects: &[GameObject], render_data: &mut Render3dData) -> (plan: UploadPlan)
    requires
        batchable(game_objects@),
    ensures
        final(render_data).well_formed(),
        final(render_data).pos@ == batched_positions(game_objects@),
        final(render_data).nor@ == batched_normals(game_objects@),
        final(render_data).ind@ == batched_indices(game_objects@),
        final(render_data).pos@.len() == vertex_count(game_objects@),
        final(render_data).ind@.len() == index_count(game_objects@),
        forall|k: int|
            0 <= k < final(render_data).ind@.len() ==> (#[trigger] final(render_data).ind@[k])
                < vertex_count(game_objects@),
        plan == plan_for(
            old(render_data).vbo_len,
            old(render_data).ibo_len,
            vertex_count(game_objects@),
            index_count(game_objects@),
        ),
        final(render_data).vbo_len == len_after_upload(
            old(render_data).vbo_len,
            vertex_count(game_objects@),
            vertex_count(game_objects@),
        ),
        final(render_data).ibo_len == len_after_upload(
            old(render_data).ibo_len,
            vertex_count(game_objects@),
            index_count(game_objects@),
        ),
{
    render_data.reset();
    assert(render_data.pos@ =~= batched_positions(game_objects@.take(0)));
    assert(render_data.nor@ =~= batched_normals(game_objects@.take(0)));
    assert(render_data.ind@ =~= batched_indices(game_objects@.take(0)));
    let mut i: usize = 0;
    while i < game_objects.len()
        invariant
            i <= game_objects@.len(),
            batchable(game_objects@),
            render_data.well_formed(),
            render_data.pos@ == batched_positions(game_objects@.take(i as int)),
            render_data.nor@ == batched_normals(game_objects@.take(i as int)),
            render_data.ind@ == batched_indices(game_objects@.take(i as int)),
            render_data.vbo_len == old(render_data).vbo_len,
            render_data.ibo_len == old(render_data).ibo_len,
        decreases game_objects@.len() - i,
    {
        let object = &game_objects[i];
        let positions = transform_positions(&object.transform, object.mesh);
        proof {
            let before = game_objects@.take(i as int);
            let with = game_objects@.take(i + 1);
            assert(with.drop_last() =~= before);
            assert(with.last() == game_objects@[i as int]);
            lemma_batched_lengths(before);
            lemma_prefix_counts(game_objects@, i as int);
            assert(object.mesh.well_formed());
            assert(zero_normals(object.mesh.pos@.len()) =~= Seq::new(
                object.mesh.pos@.len(),
                |k: int| zero_normal(),
            ));
        }
        if object.mesh.nor.len() == object.mesh.pos.len() {
            let normals = collect_normals(object.mesh);
            render_data.append(
                positions.as_slice(),
                Some(normals.as_slice()),
                object.mesh.ind.as_slice(),
            );
        } else {
            render_data.append(positions.as_slice(), None, object.mesh.ind.as_slice());
        }
        i += 1;
    }
    proof {
        assert(game_objects@.take(i as int) =~= game_objects@);
        lemma_batch_counts(game_objects@);
    }
    render_data.send()
}

/// The object `object` with `rotation` in place of its own.
pub open spec fn with_rotation<'a>(object: GameObject<'a>, rotation: glam::Quat) -> GameObject<'a> {
    GameObject {
        name: object.name,
        transform: Transform {
            position: object.transform.position,
            rotation,
            scale: object.transform.scale,
        },
        mesh: object.mesh,
    }
}

/// Gives the second object of the scene the rotation `rotation`. All else
/// stays.
pub fn set_cube_rotation(gs: &mut GameState, rotation: glam::Quat)
    requires
        old(gs).game_objects@.len() > 1,
    ensures
        final(gs).is_pixelated == old(gs).is_pixelated,
        final(gs).game_objects@ == old(gs).game_objects@.update(
            1,
            with_rotation(old(gs).game_objects@[1], rotation),
        ),
{
    let cube = &gs.game_objects[1];
    let turned = GameObject {
        name: cube.name,
        transform: Transform {
            position: cube.transform.position,
            rotation,
            scale: cube.transform.scale,
        },
        mesh: cube.mesh,
    };
    gs.game_objects.set(1, turned);
}

/// Turns the second object of the scene by `spin`: its new rotation is its
/// old one followed by `spin`, as `glam` multiplies them. All else stays.
pub fn update(gs: &mut GameState, spin: glam::Quat)
    requires
        old(gs).game_objects@.len() > 1,
    ensures
        final(gs).is_pixelated == old(gs).is_pixelated,
        final(gs).game_objects@ == old(gs).game_objects@.update(
            1,
            with_rotation(old(gs).game_objects@[1], final(gs).game_objects@[1].transform.rotation),
        ),
        is_rotation_product(
            spin,
            old(gs).game_objects@[1].transform.rotation,
            final(gs).game_objects@[1].transform.rotation,
        ),
{
    let turned = compose_rotations(spin, gs.game_objects[1].transform.rotation);
    set_cube_rotation(gs, turned);
}

} // verus!
