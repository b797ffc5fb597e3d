//! Meshes, transforms and the vertex records that are staged for the GPU.

use vstd::prelude::*;
use crate::math::{
    component_bits, compose, identity_rotation, model_matrix, one_vector, rotation_bits, to_bits,
    transform_point, transformed_point, zero_vector, ONE_BITS,
};

verus! {

/// Triangle-list geometry in mesh-local coordinates.
pub struct Mesh {
    pub pos: Vec<glam::Vec3>,
    pub nor: Vec<glam::Vec3>,
    pub ind: Vec<u32>,
}

impl Mesh {
    /// The indices form whole triangles and each names a position of the mesh.
    pub open spec fn well_formed(&self) -> bool {
        &&& self.ind@.len() % 3 == 0
        &&& forall|k: int| 0 <= k < self.ind@.len() ==> (#[trigger] self.ind@[k]) < self.pos@.len()
    }

    /// The mesh carries one normal for each position.
    pub open spec fn has_normals(&self) -> bool {
        self.nor@.len() == self.pos@.len()
    }

    /// Decides `well_formed`, for use when a mesh is loaded.
    pub fn is_well_formed(&self) -> (ok: bool)
        ensures
            ok == self.well_formed(),
    {
        if self.ind.len() % 3 != 0 {
            return false;
        }
        let mut k: usize = 0;
        while k < self.ind.len()
            invariant
                k <= self.ind@.len(),
                forall|j: int| 0 <= j < k ==> (#[trigger] self.ind@[j]) < self.pos@.len(),
            decreases self.ind@.len() - k,
        {
            if self.ind[k] as usize >= self.pos.len() {
                return false;
            }
            k += 1;
        }
        true
    }
}

/// A staged position: the bit patterns of its three coordinates.
#[derive(Clone, Copy, Debug, PartialEq, Eq)]
pub struct MeshRenderDataVertexPos {
    pub position: (u32, u32, u32),
}

/// A staged normal: the bit patterns of its three coordinates.
#[derive(Clone, Copy, Debug, PartialEq, Eq)]
pub struct MeshRenderDataVertexNor {
    pub normal: (u32, u32, u32),
}

/// The position record that holds `v`.
pub open spec fn position_record(v: glam::Vec3) -> MeshRenderDataVertexPos {
    MeshRenderDataVertexPos { position: component_bits(v) }
}

/// The normal record that holds `v`.
pub open spec fn normal_record(v: glam::Vec3) -> MeshRenderDataVertexNor {
    MeshRenderDataVertexNor { normal: component_bits(v) }
}

/// The normal all of whose coordinates are positive zero.
pub open spec fn zero_normal() -> MeshRenderDataVertexNor {
    MeshRenderDataVertexNor { normal: (0u32, 0u32, 0u32) }
}

/// Position, rotation and scale of an object.
pub struct Transform {
    pub position: glam::Vec3,
    pub rotation: glam::Quat,
    pub scale: glam::Vec3,
}

impl Transform {
    /// The model matrix of this transform.
    pub open spec fn matrix(&self) -> glam::Mat4 {
        model_matrix(self.scale, self.rotation, self.position)
    }

    /// Where this transform takes the mesh-local point `p`, as a staged record.
    pub open spec fn world(&self, p: glam::Vec3) -> MeshRenderDataVertexPos {
        position_record(transformed_point(self.matrix(), p))
    }

    /// This transform sits at the origin, does not rotate and does not scale.
    pub open spec fn is_identity(&self) -> bool {
        &&& component_bits(self.position) == (0u32, 0u32, 0u32)
        &&& rotation_bits(self.rotation) == (0u32, 0u32, 0u32, ONE_BITS)
        &&& component_bits(self.scale) == (ONE_BITS, ONE_BITS, ONE_BITS)
    }

    /// The transform that leaves every point where it is.
    pub fn id() -> (t: Transform)
        ensures
            t.is_identity(),
    {
        Transform { position: zero_vector(), rotation: identity_rotation(), scale: one_vector() }
    }

    /// The 4x4 matrix that scales, then rotates, then translates.
    pub fn model(&self) -> (m: glam::Mat4)
        ensures
            m == self.matrix(),
    {
        compose(self.scale, self.rotation, self.position)
    }
}

/// The positions of `points` under `transform`, in order.
pub open spec fn world_positions(transform: Transform, points: Seq<glam::Vec3>) -> Seq<
    MeshRenderDataVertexPos,
> {
    Seq::new(points.len(), |k: int| transform.world(points[k]))
}

/// The normals of `mesh` as staged records, or one zero normal for each
/// position where the mesh has none.
pub open spec fn staged_normals(mesh: Mesh) -> Seq<MeshRenderDataVertexNor> {
    if mesh.has_normals() {
        Seq::new(mesh.nor@.len(), |k: int| normal_record(mesh.nor@[k]))
    } else {
        Seq::new(mesh.pos@.len(), |k: int| zero_normal())
    }
}

/// Transforms every position of `mesh` into world space.
pub fn transform_positions(transform: &Transform, mesh: &Mesh) -> (out: Vec<MeshRenderDataVertexPos>)
    ensures
        out@ == world_positions(*transform, mesh.pos@),
{
    let m = transform.model();
    let mut out: Vec<MeshRenderDataVertexPos> = Vec::new();
    let mut k: usize = 0;
    while k < mesh.pos.len()
        invariant
            k <= mesh.pos@.len(),
            m == transform.matrix(),
            out@.len() == k,
            forall|j: int| 0 <= j < k ==> out@[j] == transform.world(mesh.pos@[j]),
        decreases mesh.pos@.len() - k,
    {
        let q = transform_point(&m, mesh.pos[k]);
        out.push(MeshRenderDataVertexPos { position: to_bits(q) });
        k += 1;
    }
    assert(out@ =~= world_positions(*transform, mesh.pos@));
    out
}

/// Turns the normals of `mesh` into staged records, filling in zeros where
/// the mesh has no normal for each position.
pub fn collect_normals(mesh: &Mesh) -> (out: Vec<MeshRenderDataVertexNor>)
    ensures
        out@ == staged_normals(*mesh),
{
    let mut out: Vec<MeshRenderDataVertexNor> = Vec::new();
    let with_normals = mesh.nor.len() == mesh.pos.len();
    let mut k: usize = 0;
    while k < mesh.pos.len()
        invariant
            k <= mesh.pos@.len(),
            with_normals == mesh.has_normals(),
            out@.len() == k,
            forall|j: int|
                0 <= j < k ==> out@[j] == if with_normals {
                    normal_record(mesh.nor@[j])
                } else {
                    zero_normal()
                },
        decreases mesh.pos@.len() - k,
    {
        if with_normals {
            out.push(MeshRenderDataVertexNor { normal: to_bits(mesh.nor[k]) });
        } else {
            out.push(MeshRenderDataVertexNor { normal: (0, 0, 0) });
        }
        k += 1;
    }
    assert(out@ =~= staged_normals(*mesh));
    out
}

/// The data of one mesh as it is handed to the GPU when the mesh is drawn on
/// its own: positions as they are, a zero normal for each, and the indices.
pub struct MeshRenderData<'a> {
    pub mesh: &'a Mesh,
    pub vps: Vec<MeshRenderDataVertexPos>,
    pub nor: Vec<MeshRenderDataVertexNor>,
    pub ind: Vec<u32>,
}

impl<'a> MeshRenderData<'a> {
    /// Builds the vertex records of `mesh` one by one.
    pub fn new(mesh: &'a Mesh) -> (data: Self)
        ensures
            data.mesh == mesh,
            data.vps@ == Seq::new(mesh.pos@.len(), |k: int| position_record(mesh.pos@[k])),
            data.nor@ == Seq::new(mesh.pos@.len(), |k: int| zero_normal()),
            data.ind@ == mesh.ind@,
    {
        let mut vps: Vec<MeshRenderDataVertexPos> = Vec::new();
        let mut nor: Vec<MeshRenderDataVertexNor> = Vec::new();
        let mut k: usize = 0;
        while k < mesh.pos.len()
            invariant
                k <= mesh.pos@.len(),
                vps@.len() == k,
                nor@.len() == k,
                forall|j: int| 0 <= j < k ==> vps@[j] == position_record(mesh.pos@[j]),
                forall|j: int| 0 <= j < k ==> nor@[j] == zero_normal(),
            decreases mesh.pos@.len() - k,
        {
            vps.push(MeshRenderDataVertexPos { position: to_bits(mesh.pos[k]) });
            nor.push(MeshRenderDataVertexNor { normal: (0, 0, 0) });
            k += 1;
        }
        let mut ind: Vec<u32> = Vec::new();
        let mut i: usize = 0;
        while i < mesh.ind.len()
            invariant
                i <= mesh.ind@.len(),
                ind@ == mesh.ind@.take(i as int),
            decreases mesh.ind@.len() - i,
        {
            ind.push(mesh.ind[i]);
            assert(mesh.ind@.take(i as int).push(mesh.ind@[i as int]) =~= mesh.ind@.take(i + 1));
            i += 1;
        }
        assert(mesh.ind@.take(i as int) =~= mesh.ind@);
        assert(vps@ =~= Seq::new(mesh.pos@.len(), |k: int| position_record(mesh.pos@[k])));
        assert(nor@ =~= Seq::new(mesh.pos@.len(), |k: int| zero_normal()));
        MeshRenderData { mesh, vps, nor, ind }
    }
}

} // verus!
