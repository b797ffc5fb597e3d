//! Staging arrays for one batch, and the rule by which the GPU-side buffers
//! follow them.

use vstd::prelude::*;
use crate::mesh::{zero_normal, MeshRenderDataVertexNor, MeshRenderDataVertexPos};

verus! {

/// What has to happen to one GPU buffer so that it holds the staged data.
#[derive(Clone, Copy, Debug, PartialEq, Eq)]
pub enum BufferUpdate {
    /// Replace the buffer by a new one of exactly `len` elements, filled
    /// with the staged data.
    Reallocate { len: usize },
    /// Write the staged data over the buffer, which has the right length.
    Overwrite,
}

/// What one upload does to the vertex and index buffers. `None` leaves a
/// buffer untouched.
#[derive(Clone, Copy, Debug, PartialEq, Eq)]
pub struct UploadPlan {
    pub vertices: Option<BufferUpdate>,
    pub indices: Option<BufferUpdate>,
}

/// A buffer of `buffer_len` elements is replaced exactly when the data has
/// another length.
pub open spec fn update_for(buffer_len: usize, data_len: usize) -> BufferUpdate {
    if data_len != buffer_len {
        BufferUpdate::Reallocate { len: data_len }
    } else {
        BufferUpdate::Overwrite
    }
}

/// Decides how a vertex buffer of `vbo_len` elements takes `data_len`
/// vertices.
pub fn gl_vbo_update(vbo_len: usize, data_len: usize) -> (update: BufferUpdate)
    ensures
        update == update_for(vbo_len, data_len),
{
    if data_len != vbo_len {
        BufferUpdate::Reallocate { len: data_len }
    } else {
        BufferUpdate::Overwrite
    }
}

/// Decides how an index buffer of `ibo_len` elements takes `data_len`
/// indices.
pub fn gl_ibo_update(ibo_len: usize, data_len: usize) -> (update: BufferUpdate)
    ensures
        update == update_for(ibo_len, data_len),
{
    if data_len != ibo_len {
        BufferUpdate::Reallocate { len: data_len }
    } else {
        BufferUpdate::Overwrite
    }
}

/// The upload of `vertices` staged vertices and `indices` staged indices to
/// buffers of `vbo_len` and `ibo_len` elements: nothing with no vertex staged,
/// else one decision for each buffer.
pub open spec fn plan_for(vbo_len: usize, ibo_len: usize, vertices: nat, indices: nat) -> UploadPlan {
    if vertices == 0 {
        UploadPlan { vertices: None, indices: None }
    } else {
        UploadPlan {
            vertices: Some(update_for(vbo_len, vertices as usize)),
            indices: Some(update_for(ibo_len, indices as usize)),
        }
    }
}

/// Length of a buffer of `buffer_len` elements after an upload of `staged`
/// elements in which `vertices` vertices are staged.
pub open spec fn len_after_upload(buffer_len: usize, vertices: nat, staged: nat) -> usize {
    if vertices == 0 {
        buffer_len
    } else {
        staged as usize
    }
}

/// `indices` with `base` added to each.
pub open spec fn rebased(indices: Seq<u32>, base: int) -> Seq<u32> {
    Seq::new(indices.len(), |k: int| (indices[k] + base) as u32)
}

/// `count` zero normals.
pub open spec fn zero_normals(count: nat) -> Seq<MeshRenderDataVertexNor> {
    Seq::new(count, |k: int| zero_normal())
}

/// The staging arrays of a batch, with the lengths of the GPU buffers that
/// mirror them.
#[derive(Debug)]
pub struct Render3dData {
    pub pos: Vec<MeshRenderDataVertexPos>,
    pub nor: Vec<MeshRenderDataVertexNor>,
    pub ind: Vec<u32>,
    /// Length of the GPU vertex buffers, in vertices.
    pub vbo_len: usize,
    /// Length of the GPU index buffer, in indices.
    pub ibo_len: usize,
}

impl Render3dData {
    /// There is one staged normal for each staged position.
    pub open spec fn well_formed(&self) -> bool {
        self.pos@.len() == self.nor@.len()
    }

    /// The upload that `send` decides on in this state.
    pub open spec fn upload_plan(&self) -> UploadPlan {
        plan_for(self.vbo_len, self.ibo_len, self.pos@.len(), self.ind@.len())
    }

    /// Length of the GPU vertex buffers after `send` in this state.
    pub open spec fn vbo_len_after_upload(&self) -> usize {
        len_after_upload(self.vbo_len, self.pos@.len(), self.pos@.len())
    }

    /// Length of the GPU index buffer after `send` in this state.
    pub open spec fn ibo_len_after_upload(&self) -> usize {
        len_after_upload(self.ibo_len, self.pos@.len(), self.ind@.len())
    }

    /// Empty staging arrays beside GPU buffers of `cap` elements each.
    pub fn new(cap: usize) -> (data: Self)
        ensures
            data.pos@.len() == 0,
            data.nor@.len() == 0,
            data.ind@.len() == 0,
            data.vbo_len == cap,
            data.ibo_len == cap,
            data.well_formed(),
    {
        Render3dData { pos: Vec::new(), nor: Vec::new(), ind: Vec::new(), vbo_len: cap, ibo_len: cap }
    }

    /// Empties the staging arrays. The GPU buffers keep their lengths and
    /// their contents.
    pub fn reset(&mut self)
        ensures
            final(self).pos@.len() == 0,
            final(self).nor@.len() == 0,
            final(self).ind@.len() == 0,
            final(self).vbo_len == old(self).vbo_len,
            final(self).ibo_len == old(self).ibo_len,
            final(self).well_formed(),
    {
        self.pos.clear();
        self.nor.clear();
        self.ind.clear();
    }

    /// Stages the vertices of one object behind those already staged.
    /// `positions` are in world space. Without `normals` each vertex gets a
    /// zero normal. Each index is raised by the number of vertices staged
    /// before the call, so that it still names the same vertex.
    pub fn append(
        &mut self,
        positions: &[MeshRenderDataVertexPos],
        normals: Option<&[MeshRenderDataVertexNor]>,
        indices: &[u32],
    )
        requires
            old(self).well_formed(),
            normals matches Some(n) ==> n@.len() == positions@.len(),
            forall|k: int|
                0 <= k < indices@.len() ==> old(self).pos@.len() + (#[trigger] indices@[k])
                    <= u32::MAX,
        ensures
            final(self).well_formed(),
            final(self).pos@ == old(self).pos@ + positions@,
            final(self).nor@ == old(self).nor@ + match normals {
                Some(n) => n@,
                None => zero_normals(positions@.len()),
            },
            final(self).ind@ == old(self).ind@ + rebased(indices@, old(self).pos@.len() as int),
            final(self).vbo_len == old(self).vbo_len,
            final(self).ibo_len == old(self).ibo_len,
    {
        let base: usize = self.pos.len();
        let mut k: usize = 0;
        while k < positions.len()
            invariant
                k <= positions@.len(),
                base == old(self).pos@.len(),
                self.pos@ == old(self).pos@ + positions@.take(k as int),
                self.nor@ == old(self).nor@ + match normals {
                    Some(n) => n@.take(k as int),
                    None => zero_normals(k as nat),
                },
                normals matches Some(n) ==> n@.len() == positions@.len(),
                self.ind@ == old(self).ind@,
                self.vbo_len == old(self).vbo_len,
                self.ibo_len == old(self).ibo_len,
            decreases positions@.len() - k,
        {
            self.pos.push(positions[k]);
            match normals {
                Some(n) => {
                    self.nor.push(n[k]);
                    assert(n@.take(k as int).push(n@[k as int]) =~= n@.take(k + 1));
                },
                None => {
                    self.nor.push(MeshRenderDataVertexNor { normal: (0, 0, 0) });
                    assert(zero_normals(k as nat).push(zero_normal()) =~= zero_normals(
                        (k + 1) as nat,
                    ));
                },
            }
            assert(positions@.take(k as int).push(positions@[k as int]) =~= positions@.take(
                k + 1,
            ));
            assert(self.pos@ =~= old(self).pos@ + positions@.take(k + 1));
            assert(self.nor@ =~= old(self).nor@ + match normals {
                Some(n) => n@.take(k + 1),
                None => zero_normals((k + 1) as nat),
            });
            k += 1;
        }
        assert(positions@.take(k as int) =~= positions@);
        assert(normals matches Some(n) ==> n@.take(k as int) =~= n@);
        let mut i: usize = 0;
        while i < indices.len()
            invariant
                i <= indices@.len(),
                base == old(self).pos@.len(),
                forall|j: int|
                    0 <= j < indices@.len() ==> base + (#[trigger] indices@[j]) <= u32::MAX,
                self.ind@ == old(self).ind@ + rebased(indices@.take(i as int), base as int),
                self.pos@ == old(self).pos@ + positions@,
                self.nor@ == old(self).nor@ + match normals {
                    Some(n) => n@,
                    None => zero_normals(positions@.len()),
                },
                self.vbo_len == old(self).vbo_len,
                self.ibo_len == old(self).ibo_len,
            decreases indices@.len() - i,
        {
            let local: u32 = indices[i];
            assert(base + indices@[i as int] <= u32::MAX);
            let shifted: u32 = (base as u32) + local;
            self.ind.push(shifted);
            assert(self.ind@ =~= old(self).ind@ + rebased(indices@.take(i + 1), base as int));
            i += 1;
        }
        assert(indices@.take(i as int) =~= indices@);
    }

    /// Decides how the GPU buffers take the staged data, and records their
    /// new lengths. With nothing staged neither buffer is touched. Otherwise
    /// each buffer is replaced if the staged length differs from its own and
    /// written over if not, the index buffer independently of the vertex
    /// buffer.
    pub fn send(&mut self) -> (plan: UploadPlan)
        ensures
            plan == old(self).upload_plan(),
            final(self).pos@ == old(self).pos@,
            final(self).nor@ == old(self).nor@,
            final(self).ind@ == old(self).ind@,
            final(self).vbo_len == old(self).vbo_len_after_upload(),
            final(self).ibo_len == old(self).ibo_len_after_upload(),
            old(self).pos@.len() == 0 ==> *final(self) == *old(self),
            old(self).pos@.len() > 0 ==> final(self).vbo_len == old(self).pos@.len()
                && final(self).ibo_len == old(self).ind@.len(),
    {
        if self.pos.len() == 0 {
            return UploadPlan { vertices: None, indices: None };
        }
        let vertices = gl_vbo_update(self.vbo_len, self.pos.len());
        let indices = gl_ibo_update(self.ibo_len, self.ind.len());
        self.vbo_len = self.pos.len();
        self.ibo_len = self.ind.len();
        UploadPlan { vertices: Some(vertices), indices: Some(indices) }
    }
}

/// A buffer is replaced if and only if the data has another length than the
/// buffer, and then by one of exactly the data's length.
pub proof fn lemma_reallocate_iff_length_differs(buffer_len: usize, data_len: usize)
    ensures
        data_len != buffer_len <==> update_for(buffer_len, data_len) == (BufferUpdate::Reallocate {
            len: data_len,
        }),
        data_len == buffer_len <==> update_for(buffer_len, data_len) == BufferUpdate::Overwrite,
{
}

/// With something staged, an upload replaces the vertex buffer if and only if
/// the number of staged vertices differs from the buffer's length, and the
/// index buffer if and only if the number of staged indices differs from its
/// length. After it both buffers are as long as what is staged.
pub proof fn lemma_upload_reallocates_iff_length_differs(data: Render3dData)
    requires
        data.pos@.len() > 0,
    ensures
        data.pos@.len() != data.vbo_len <==> data.upload_plan().vertices == Some(
            BufferUpdate::Reallocate { len: data.pos.len() },
        ),
        data.pos@.len() == data.vbo_len <==> data.upload_plan().vertices == Some(
            BufferUpdate::Overwrite,
        ),
        data.ind@.len() != data.ibo_len <==> data.upload_plan().indices == Some(
            BufferUpdate::Reallocate { len: data.ind.len() },
        ),
        data.ind@.len() == data.ibo_len <==> data.upload_plan().indices == Some(
            BufferUpdate::Overwrite,
        ),
        data.vbo_len_after_upload() == data.pos@.len(),
        data.ibo_len_after_upload() == data.ind@.len(),
{
}

/// Of two uploads in a row with staging arrays of the same lengths, the
/// second replaces no buffer: it writes over both, or touches neither where
/// nothing is staged.
pub proof fn lemma_second_upload_in_place(first: Render3dData, second: Render3dData)
    requires
        second.vbo_len == first.vbo_len_after_upload(),
        second.ibo_len == first.ibo_len_after_upload(),
        second.pos@.len() == first.pos@.len(),
        second.ind@.len() == first.ind@.len(),
    ensures
        first.pos@.len() > 0 ==> second.upload_plan() == (UploadPlan {
            vertices: Some(BufferUpdate::Overwrite),
            indices: Some(BufferUpdate::Overwrite),
        }),
        first.pos@.len() == 0 ==> second.upload_plan() == (UploadPlan {
            vertices: None,
            indices: None,
        }),
        second.vbo_len_after_upload() == second.vbo_len,
        second.ibo_len_after_upload() == second.ibo_len,
{
}

/// An upload with nothing staged, as right after `reset`, touches no buffer
/// and leaves both lengths as they are.
pub proof fn lemma_empty_upload_is_noop(data: Render3dData)
    requires
        data.pos@.len() == 0,
    ensures
        data.upload_plan() == (UploadPlan { vertices: None, indices: None }),
        data.vbo_len_after_upload() == data.vbo_len,
        data.ibo_len_after_upload() == data.ibo_len,
{
}

} // verus!
