//! Per-frame flattening: all meshes of all models, in caller order, become
//! one contiguous vertex array, one contiguous index array and one draw
//! range per mesh.
//!
//! A mesh's indices are appended as they are — they stay relative to the
//! mesh's own vertices through the draw range's base-vertex offset.  A frame
//! whose flattened data would not fit the fixed buffers is rejected whole.

use vstd::prelude::*;
use vstd::slice::slice_index_get;

use crate::config::INDEX_BUFFER_SIZE;
use crate::config::INDEX_STRIDE_BYTES;
use crate::config::MAX_FRAME_INDICES;
use crate::config::MAX_FRAME_VERTICES;
use crate::config::VERTEX_BUFFER_SIZE;
use crate::config::VERTEX_STRIDE_BYTES;
use crate::geometry::Mesh;
use crate::geometry::Model;
use crate::geometry::Vertex;

verus! {

/// Why a frame could not be produced.
#[derive(Clone, Copy, Debug, PartialEq, Eq, Structural)]
pub enum RenderError {
    /// The frame's flattened vertex or index data exceeds a buffer's fixed
    /// capacity.  Fatal: capacity never grows, and nothing was uploaded.
    FrameDataTooLarge,
}

/// One per-mesh draw: an indexed draw over `[first_index, end_index)` with
/// vertex `base_vertex` added to each index by the draw call.
#[derive(Clone, Copy, Debug, PartialEq, Eq, Structural)]
pub struct DrawRange {
    pub base_vertex: i32,
    pub first_index: u32,
    pub end_index: u32,
}

/// One frame's flattened geometry and its draw list, in submission order.
#[derive(Debug)]
pub struct FrameData {
    pub vertices: Vec<Vertex>,
    pub indices: Vec<u32>,
    pub draws: Vec<DrawRange>,
}

/// All meshes of all models, in caller-supplied model order and stored mesh
/// order.
pub open spec fn all_meshes(models: Seq<&Model>) -> Seq<Mesh>
    decreases models.len(),
{
    if models.len() == 0 {
        Seq::empty()
    } else {
        models[0].meshes@ + all_meshes(models.skip(1))
    }
}

/// The flattened vertex array of a mesh sequence.
pub open spec fn flat_vertices(meshes: Seq<Mesh>) -> Seq<Vertex>
    decreases meshes.len(),
{
    if meshes.len() == 0 {
        Seq::empty()
    } else {
        meshes[0].vertices@ + flat_vertices(meshes.skip(1))
    }
}

/// The flattened index array of a mesh sequence.
pub open spec fn flat_indices(meshes: Seq<Mesh>) -> Seq<u32>
    decreases meshes.len(),
{
    if meshes.len() == 0 {
        Seq::empty()
    } else {
        meshes[0].indices@ + flat_indices(meshes.skip(1))
    }
}

/// Whether one frame's flattened data fits the fixed buffer capacities.
pub open spec fn frame_fits(meshes: Seq<Mesh>) -> bool {
    &&& VERTEX_STRIDE_BYTES * flat_vertices(meshes).len() <= VERTEX_BUFFER_SIZE
    &&& INDEX_STRIDE_BYTES * flat_indices(meshes).len() <= INDEX_BUFFER_SIZE
}

/// Base-vertex offset of mesh `j`: the vertices flattened before it.
pub open spec fn range_base_vertex(meshes: Seq<Mesh>, j: int) -> int {
    flat_vertices(meshes.take(j)).len() as int
}

/// First index of mesh `j`'s range: the indices flattened before it.
pub open spec fn range_first_index(meshes: Seq<Mesh>, j: int) -> int {
    flat_indices(meshes.take(j)).len() as int
}

/// One-past-the-last index of mesh `j`'s range.
pub open spec fn range_end_index(meshes: Seq<Mesh>, j: int) -> int {
    range_first_index(meshes, j) + meshes[j].indices@.len()
}

/// The draw range recorded for mesh `j`.
pub open spec fn range_matches(meshes: Seq<Mesh>, j: int, r: DrawRange) -> bool {
    &&& r.base_vertex == range_base_vertex(meshes, j)
    &&& r.first_index == range_first_index(meshes, j)
    &&& r.end_index == range_end_index(meshes, j)
}

pub proof fn lemma_flat_vertices_append(a: Seq<Mesh>, b: Seq<Mesh>)
    ensures
        flat_vertices(a + b) == flat_vertices(a) + flat_vertices(b),
    decreases a.len(),
{
    if a.len() == 0 {
        assert(a + b =~= b);
        assert(flat_vertices(a) + flat_vertices(b) =~= flat_vertices(b));
    } else {
        lemma_flat_vertices_append(a.skip(1), b);
        assert((a + b).skip(1) =~= a.skip(1) + b);
        assert(flat_vertices(a + b) =~= flat_vertices(a) + flat_vertices(b));
    }
}

pub proof fn lemma_flat_indices_append(a: Seq<Mesh>, b: Seq<Mesh>)
    ensures
        flat_indices(a + b) == flat_indices(a) + flat_indices(b),
    decreases a.len(),
{
    if a.len() == 0 {
        assert(a + b =~= b);
        assert(flat_indices(a) + flat_indices(b) =~= flat_indices(b));
    } else {
        lemma_flat_indices_append(a.skip(1), b);
        assert((a + b).skip(1) =~= a.skip(1) + b);
        assert(flat_indices(a + b) =~= flat_indices(a) + flat_indices(b));
    }
}

pub proof fn lemma_flat_push(s: Seq<Mesh>, m: Mesh)
    ensures
        flat_vertices(s.push(m)) == flat_vertices(s) + m.vertices@,
        flat_indices(s.push(m)) == flat_indices(s) + m.indices@,
{
    let single = seq![m];
    assert(s.push(m) =~= s + single);
    lemma_flat_vertices_append(s, single);
    lemma_flat_indices_append(s, single);
    assert(single.skip(1) =~= Seq::<Mesh>::empty());
    assert(flat_vertices(single) == single[0].vertices@ + flat_vertices(single.skip(1)));
    assert(flat_indices(single) == single[0].indices@ + flat_indices(single.skip(1)));
    assert(flat_vertices(single) =~= m.vertices@);
    assert(flat_indices(single) =~= m.indices@);
}

pub proof fn lemma_all_meshes_append(a: Seq<&Model>, b: Seq<&Model>)
    ensures
        all_meshes(a + b) == all_meshes(a) + all_meshes(b),
    decreases a.len(),
{
    if a.len() == 0 {
        assert(a + b =~= b);
        assert(all_meshes(a) + all_meshes(b) =~= all_meshes(b));
    } else {
        lemma_all_meshes_append(a.skip(1), b);
        assert((a + b).skip(1) =~= a.skip(1) + b);
        assert(all_meshes(a + b) =~= all_meshes(a) + all_meshes(b));
    }
}

pub proof fn lemma_all_meshes_take_succ(models: Seq<&Model>, i: int)
    requires
        0 <= i < models.len(),
    ensures
        all_meshes(models.take(i + 1)) == all_meshes(models.take(i)) + models[i].meshes@,
{
    let single = seq![models[i]];
    assert(models.take(i + 1) =~= models.take(i) + single);
    lemma_all_meshes_append(models.take(i), single);
    assert(single.skip(1) =~= Seq::<&Model>::empty());
    assert(all_meshes(single) == single[0].meshes@ + all_meshes(single.skip(1)));
    assert(all_meshes(single) =~= models[i].meshes@);
}

/// The whole mesh list splits around position `i`, `k`: the meshes already
/// flattened (models before `i`, then the first `k` meshes of model `i`) and
/// the meshes still to come.
pub proof fn lemma_split_at_mesh(models: Seq<&Model>, i: int, k: int)
    requires
        0 <= i < models.len(),
        0 <= k <= models[i].meshes@.len(),
    ensures
        all_meshes(models) == (all_meshes(models.take(i)) + models[i].meshes@.take(k)) + (
        models[i].meshes@.skip(k) + all_meshes(models.skip(i + 1))),
{
    assert(models =~= models.take(i + 1) + models.skip(i + 1));
    lemma_all_meshes_append(models.take(i + 1), models.skip(i + 1));
    lemma_all_meshes_take_succ(models, i);
    assert(models[i].meshes@ =~= models[i].meshes@.take(k) + models[i].meshes@.skip(k));
    assert(all_meshes(models) =~= (all_meshes(models.take(i)) + models[i].meshes@.take(k)) + (
    models[i].meshes@.skip(k) + all_meshes(models.skip(i + 1))));
}

/// The draw-range list of a flattened mesh sequence partitions the flattened
/// index array: the first range starts at 0, each range ends where the next
/// begins, the last range ends at the array's length, each range's length is
/// its mesh's index count, and each base-vertex offset grows by its mesh's
/// vertex count — so the ranges are contiguous, non-overlapping, and cover
/// the array exactly, in submission order.
pub proof fn lemma_draw_ranges_partition(meshes: Seq<Mesh>)
    ensures
        range_first_index(meshes, 0) == 0,
        range_base_vertex(meshes, 0) == 0,
        forall|j: int|
            0 <= j < meshes.len() ==> #[trigger] range_end_index(meshes, j) == range_first_index(
                meshes,
                j + 1,
            ),
        forall|j: int|
            0 <= j < meshes.len() ==> #[trigger] range_end_index(meshes, j) - range_first_index(
                meshes,
                j,
            ) == meshes[j].indices@.len(),
        forall|j: int|
            0 <= j < meshes.len() ==> #[trigger] range_base_vertex(meshes, j + 1)
                == range_base_vertex(meshes, j) + meshes[j].vertices@.len(),
        meshes.len() > 0 ==> range_end_index(meshes, meshes.len() - 1) == flat_indices(
            meshes,
        ).len(),
{
    assert(meshes.take(0) =~= Seq::<Mesh>::empty());
    assert forall|j: int| 0 <= j < meshes.len() implies #[trigger] range_end_index(meshes, j)
        == range_first_index(meshes, j + 1) by {
        assert(meshes.take(j + 1) =~= meshes.take(j).push(meshes[j]));
        lemma_flat_push(meshes.take(j), meshes[j]);
    }
    assert forall|j: int| 0 <= j < meshes.len() implies #[trigger] range_base_vertex(meshes, j + 1)
        == range_base_vertex(meshes, j) + meshes[j].vertices@.len() by {
        assert(meshes.take(j + 1) =~= meshes.take(j).push(meshes[j]));
        lemma_flat_push(meshes.take(j), meshes[j]);
    }
    if meshes.len() > 0 {
        let last = meshes.len() - 1;
        assert(meshes.take(last + 1) =~= meshes);
        assert(meshes.take(last + 1) =~= meshes.take(last).push(meshes[last]));
        lemma_flat_push(meshes.take(last), meshes[last]);
    }
}

/// Flattening moves each mesh's data verbatim: mesh `j`'s vertices sit in
/// the flattened vertex array starting at its base-vertex offset, and its
/// indices sit unchanged in the flattened index array over its draw range —
/// so an index plus the base-vertex offset addresses the same vertex it did
/// inside the mesh.
pub proof fn lemma_flatten_preserves_mesh_data(meshes: Seq<Mesh>, j: int)
    requires
        0 <= j < meshes.len(),
    ensures
        forall|q: int|
            0 <= q < meshes[j].vertices@.len() ==> flat_vertices(meshes)[range_base_vertex(
                meshes,
                j,
            ) + q] == #[trigger] meshes[j].vertices@[q],
        forall|p: int|
            0 <= p < meshes[j].indices@.len() ==> flat_indices(meshes)[range_first_index(meshes, j)
                + p] == #[trigger] meshes[j].indices@[p],
{
    assert(meshes =~= meshes.take(j) + meshes.skip(j));
    lemma_flat_vertices_append(meshes.take(j), meshes.skip(j));
    lemma_flat_indices_append(meshes.take(j), meshes.skip(j));
    assert(meshes.skip(j)[0] == meshes[j]);
    assert(flat_vertices(meshes.skip(j)) == meshes[j].vertices@ + flat_vertices(
        meshes.skip(j).skip(1),
    ));
    assert(flat_indices(meshes.skip(j)) == meshes[j].indices@ + flat_indices(
        meshes.skip(j).skip(1),
    ));
}

/// Flattens `models` in order into one vertex array, one index array and one
/// draw range per mesh; fails, changing nothing, if the frame's data would
/// exceed a fixed buffer capacity.
pub fn flatten_models(models: &[&Model]) -> (r: Result<FrameData, RenderError>)
    ensures
        match r {
            Ok(f) => {
                &&& frame_fits(all_meshes(models@))
                &&& f.vertices@ == flat_vertices(all_meshes(models@))
                &&& f.indices@ == flat_indices(all_meshes(models@))
                &&& f.draws@.len() == all_meshes(models@).len()
                &&& forall|j: int|
                    0 <= j < f.draws@.len() ==> range_matches(
                        all_meshes(models@),
                        j,
                        #[trigger] f.draws@[j],
                    )
            },
            Err(e) => {
                &&& e == RenderError::FrameDataTooLarge
                &&& !frame_fits(all_meshes(models@))
            },
        },
{
    let mut vertices: Vec<Vertex> = Vec::new();
    let mut indices: Vec<u32> = Vec::new();
    let mut draws: Vec<DrawRange> = Vec::new();
    let ghost whole: Seq<Mesh> = all_meshes(models@);
    let ghost mut done: Seq<Mesh> = Seq::empty();
    let model_count: usize = models.len();
    let mut mi: usize = 0;
    proof {
        assert(models@.take(0) =~= Seq::<&Model>::empty());
        assert(done =~= all_meshes(models@.take(0)));
    }
    while mi < model_count
        invariant
            model_count == models@.len(),
            mi <= model_count,
            whole == all_meshes(models@),
            done == all_meshes(models@.take(mi as int)),
            vertices@ == flat_vertices(done),
            indices@ == flat_indices(done),
            vertices@.len() <= MAX_FRAME_VERTICES,
            indices@.len() <= MAX_FRAME_INDICES,
            draws@.len() == done.len(),
            forall|j: int| 0 <= j < draws@.len() ==> range_matches(done, j, #[trigger] draws@[j]),
        decreases model_count - mi,
    {
        let model: &Model = *slice_index_get(models, mi);
        let mesh_count: usize = model.meshes.len();
        let mut k: usize = 0;
        proof {
            assert(model.meshes@.take(0) =~= Seq::<Mesh>::empty());
            assert(done + model.meshes@.take(0) =~= done);
        }
        while k < mesh_count
            invariant
                model_count == models@.len(),
                mi < model_count,
                model == models@[mi as int],
                mesh_count == model.meshes@.len(),
                k <= mesh_count,
                whole == all_meshes(models@),
                done == all_meshes(models@.take(mi as int)) + model.meshes@.take(k as int),
                vertices@ == flat_vertices(done),
                indices@ == flat_indices(done),
                vertices@.len() <= MAX_FRAME_VERTICES,
                indices@.len() <= MAX_FRAME_INDICES,
                draws@.len() == done.len(),
                forall|j: int|
                    0 <= j < draws@.len() ==> range_matches(done, j, #[trigger] draws@[j]),
            decreases mesh_count - k,
        {
            let mesh: &Mesh = &model.meshes[k];
            let vlen: usize = vertices.len();
            let ilen: usize = indices.len();
            let mvlen: usize = mesh.vertices.len();
            let milen: usize = mesh.indices.len();
            if mvlen > MAX_FRAME_VERTICES - vlen || milen > MAX_FRAME_INDICES - ilen {
                proof {
                    lemma_split_at_mesh(models@, mi as int, k as int);
                    let rest = models@[mi as int].meshes@.skip(k as int) + all_meshes(
                        models@.skip(mi as int + 1),
                    );
                    lemma_flat_vertices_append(done, rest);
                    lemma_flat_indices_append(done, rest);
                    assert(rest[0] == models@[mi as int].meshes@[k as int]);
                    assert(flat_vertices(rest) == rest[0].vertices@ + flat_vertices(rest.skip(1)));
                    assert(flat_indices(rest) == rest[0].indices@ + flat_indices(rest.skip(1)));
                    assert(flat_vertices(whole).len() >= vertices@.len() + mvlen);
                    assert(flat_indices(whole).len() >= indices@.len() + milen);
                    assert(!frame_fits(whole));
                }
                return Err(RenderError::FrameDataTooLarge);
            }
            let draw = DrawRange {
                base_vertex: vlen as i32,
                first_index: ilen as u32,
                end_index: (ilen + milen) as u32,
            };
            draws.push(draw);
            let mut t: usize = 0;
            proof {
                assert(mesh.vertices@.take(0) =~= Seq::<Vertex>::empty());
                assert(vertices@ + mesh.vertices@.take(0) =~= vertices@);
            }
            let ghost vertices_before = vertices@;
            while t < mvlen
                invariant
                    mvlen == mesh.vertices@.len(),
                    t <= mvlen,
                    vertices@ == vertices_before + mesh.vertices@.take(t as int),
                decreases mvlen - t,
            {
                vertices.push(mesh.vertices[t]);
                proof {
                    assert(vertices@ =~= vertices_before + mesh.vertices@.take(t + 1));
                }
                t = t + 1;
            }
            let mut u: usize = 0;
            proof {
                assert(mesh.vertices@.take(mvlen as int) =~= mesh.vertices@);
                assert(mesh.indices@.take(0) =~= Seq::<u32>::empty());
                assert(indices@ + mesh.indices@.take(0) =~= indices@);
            }
            let ghost indices_before = indices@;
            while u < milen
                invariant
                    milen == mesh.indices@.len(),
                    u <= milen,
                    indices@ == indices_before + mesh.indices@.take(u as int),
                decreases milen - u,
            {
                indices.push(mesh.indices[u]);
                proof {
                    assert(indices@ =~= indices_before + mesh.indices@.take(u + 1));
                }
                u = u + 1;
            }
            proof {
                assert(mesh.indices@.take(milen as int) =~= mesh.indices@);
                let old_done = done;
                done = done.push(*mesh);
                lemma_flat_push(old_done, *mesh);
                assert(old_done.take(old_done.len() as int) =~= old_done);
                assert(done.take(old_done.len() as int) =~= old_done);
                assert(range_matches(done, old_done.len() as int, draw));
                assert forall|j: int| 0 <= j < draws@.len() implies range_matches(
                    done,
                    j,
                    #[trigger] draws@[j],
                ) by {
                    if j < old_done.len() {
                        assert(range_matches(old_done, j, draws@[j]));
                        assert(done.take(j) =~= old_done.take(j));
                        assert(done[j] == old_done[j]);
                    }
                }
                assert(model.meshes@.take(k + 1) =~= model.meshes@.take(k as int).push(*mesh));
                lemma_flat_push(all_meshes(models@.take(mi as int)) + model.meshes@.take(k as int),
                    *mesh);
                assert(done =~= all_meshes(models@.take(mi as int)) + model.meshes@.take(k + 1));
            }
            k = k + 1;
        }
        proof {
            assert(model.meshes@.take(mesh_count as int) =~= model.meshes@);
            lemma_all_meshes_take_succ(models@, mi as int);
            assert(done =~= all_meshes(models@.take(mi as int + 1)));
        }
        mi = mi + 1;
    }
    proof {
        assert(models@.take(model_count as int) =~= models@);
        assert(done =~= all_meshes(models@));
        assert(VERTEX_STRIDE_BYTES * flat_vertices(done).len() <= VERTEX_BUFFER_SIZE);
        assert(INDEX_STRIDE_BYTES * flat_indices(done).len() <= INDEX_BUFFER_SIZE);
    }
    Ok(FrameData { vertices, indices, draws })
}

} // verus!
