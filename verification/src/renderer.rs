//! The frame renderer: owns the fixed-capacity buffer contents and the
//! dimensions of the window-sized presentation resources, and turns a view
//! matrix plus an ordered model list into one frame's uploads and draw list.
//!
//! The hosting application creates the matching GPU objects once at startup,
//! performs the uploads and draw calls this component prescribes, and
//! acquires/presents the drawable; those steps live outside this core.

use vstd::prelude::*;

use crate::buffers::overwrite_prefix;
use crate::buffers::GpuBuffer;
use crate::bytes::bytes_of_words;
use crate::bytes::lemma_words_round_trip;
use crate::bytes::matrix_to_le_bytes;
use crate::bytes::words_from_le_bytes;
use crate::bytes::words_of_bytes;
use crate::bytes::words_to_le_bytes;
use crate::config::F32_ONE_BITS;
use crate::config::INDEX_BUFFER_SIZE;
use crate::config::INDEX_STRIDE_BYTES;
use crate::config::UNIFORM_BUFFER_SIZE;
use crate::config::VERTEX_BUFFER_SIZE;
use crate::config::VERTEX_STRIDE_BYTES;
use crate::flatten::all_meshes;
use crate::flatten::flat_indices;
use crate::flatten::flat_vertices;
use crate::flatten::flatten_models;
use crate::flatten::frame_fits;
use crate::flatten::range_matches;
use crate::flatten::DrawRange;
use crate::flatten::RenderError;
use crate::geometry::vertices_to_le_bytes;
use crate::geometry::words_of_vertices;
use crate::geometry::Model;

verus! {

/// The two window-sized resources — presentation target and depth buffer —
/// always recreated together, so their dimensions can never disagree.
#[derive(Clone, Copy, Debug, PartialEq, Eq, Structural)]
pub struct SizedTargets {
    pub width: u32,
    pub height: u32,
}

/// What one resize request does to the window-sized resources: a request
/// with a zero dimension is ignored, any other replaces them at its size.
pub open spec fn resize_step(t: SizedTargets, w: u32, h: u32) -> SizedTargets {
    if w == 0 || h == 0 {
        t
    } else {
        SizedTargets { width: w, height: h }
    }
}

/// The resources' dimensions after a whole sequence of resize requests.
pub open spec fn apply_resizes(t: SizedTargets, reqs: Seq<(u32, u32)>) -> SizedTargets
    decreases reqs.len(),
{
    if reqs.len() == 0 {
        t
    } else {
        apply_resizes(resize_step(t, reqs[0].0, reqs[0].1), reqs.skip(1))
    }
}

/// After any sequence of resize requests with positive dimensions, the
/// window-sized resources have exactly the most recent request's dimensions.
pub proof fn lemma_latest_resize_wins(t: SizedTargets, reqs: Seq<(u32, u32)>)
    requires
        reqs.len() > 0,
        forall|i: int| 0 <= i < reqs.len() ==> (#[trigger] reqs[i]).0 > 0 && reqs[i].1 > 0,
    ensures
        apply_resizes(t, reqs) == (SizedTargets { width: reqs.last().0, height: reqs.last().1 }),
    decreases reqs.len(),
{
    let stepped = resize_step(t, reqs[0].0, reqs[0].1);
    if reqs.len() == 1 {
        assert(reqs[0].0 > 0 && reqs[0].1 > 0);
        assert(reqs.skip(1) =~= Seq::<(u32, u32)>::empty());
        assert(reqs.last() == reqs[0]);
        assert(apply_resizes(t, reqs) == apply_resizes(stepped, reqs.skip(1)));
        assert(apply_resizes(stepped, reqs.skip(1)) == stepped);
        assert(stepped == (SizedTargets { width: reqs[0].0, height: reqs[0].1 }));
    } else {
        assert(forall|i: int|
            0 <= i < reqs.skip(1).len() ==> (#[trigger] reqs.skip(1)[i]) == reqs[i + 1]);
        lemma_latest_resize_wins(stepped, reqs.skip(1));
        assert(reqs.skip(1).last() == reqs.last());
    }
}

/// What the application must do to draw one frame: bind the vertex and index
/// buffers over exactly the written byte ranges and issue the listed indexed
/// draws, in order, one instance each.
#[derive(Debug)]
pub struct FramePlan {
    /// Byte length of the flattened vertex data to bind.
    pub vertex_byte_len: u64,
    /// Byte length of the flattened index data to bind (32-bit indices).
    pub index_byte_len: u64,
    /// One indexed draw per mesh, in submission order.
    pub draws: Vec<DrawRange>,
}

/// The identity matrix as uniform-buffer words (diagonal of 1.0f32).
pub open spec fn identity_matrix_words() -> Seq<u32> {
    seq![
        F32_ONE_BITS,
        0u32,
        0u32,
        0u32,
        0u32,
        F32_ONE_BITS,
        0u32,
        0u32,
        0u32,
        0u32,
        F32_ONE_BITS,
        0u32,
        0u32,
        0u32,
        0u32,
        F32_ONE_BITS,
    ]
}

/// The renderer: fixed-capacity buffer contents plus the current dimensions
/// of the window-sized resources.  The GPU objects these model are created
/// once by the hosting application and never reallocated; only the
/// window-sized resources are replaced, on resize.
#[derive(Debug)]
pub struct Instance {
    pub targets: SizedTargets,
    pub vertex_buffer: GpuBuffer,
    pub index_buffer: GpuBuffer,
    pub uniform_buffer: GpuBuffer,
}

impl Instance {
    /// Buffer capacities are the fixed sizes, the uniform buffer always
    /// holds one whole matrix, and the window-sized resources are never
    /// zero-sized.
    pub open spec fn wf(self) -> bool {
        &&& self.vertex_buffer.wf()
        &&& self.vertex_buffer.capacity == VERTEX_BUFFER_SIZE
        &&& self.index_buffer.wf()
        &&& self.index_buffer.capacity == INDEX_BUFFER_SIZE
        &&& self.uniform_buffer.wf()
        &&& self.uniform_buffer.capacity == UNIFORM_BUFFER_SIZE
        &&& self.uniform_buffer.data@.len() == UNIFORM_BUFFER_SIZE
        &&& self.targets.width > 0
        &&& self.targets.height > 0
    }

    /// Sets up the renderer for a window of the given strictly positive
    /// pixel size: empty vertex/index buffers and the uniform buffer holding
    /// the identity matrix.
    pub fn new(window_size: [u32; 2]) -> (inst: Instance)
        requires
            window_size@[0] > 0,
            window_size@[1] > 0,
        ensures
            inst.wf(),
            inst.targets == (SizedTargets { width: window_size@[0], height: window_size@[1] }),
            inst.vertex_buffer.data@ == Seq::<u8>::empty(),
            inst.index_buffer.data@ == Seq::<u8>::empty(),
            inst.uniform_buffer.data@ == bytes_of_words(identity_matrix_words()),
    {
        let mut words: Vec<u32> = Vec::new();
        words.push(F32_ONE_BITS);
        words.push(0);
        words.push(0);
        words.push(0);
        words.push(0);
        words.push(F32_ONE_BITS);
        words.push(0);
        words.push(0);
        words.push(0);
        words.push(0);
        words.push(F32_ONE_BITS);
        words.push(0);
        words.push(0);
        words.push(0);
        words.push(0);
        words.push(F32_ONE_BITS);
        proof {
            assert(words@ =~= identity_matrix_words());
        }
        let uniform_bytes = words_to_le_bytes(&words);
        Instance {
            targets: SizedTargets { width: window_size[0], height: window_size[1] },
            vertex_buffer: GpuBuffer::new(VERTEX_BUFFER_SIZE),
            index_buffer: GpuBuffer::new(INDEX_BUFFER_SIZE),
            uniform_buffer: GpuBuffer::with_contents(UNIFORM_BUFFER_SIZE, uniform_bytes),
        }
    }

    /// Replaces the presentation target and depth buffer at the new size;
    /// a request with a zero dimension is ignored (minimized window).  All
    /// other GPU resources are untouched — none depend on window size.
    pub fn resize(&mut self, size: [u32; 2])
        requires
            old(self).wf(),
        ensures
            final(self).wf(),
            final(self).targets == resize_step(old(self).targets, size@[0], size@[1]),
            final(self).vertex_buffer == old(self).vertex_buffer,
            final(self).index_buffer == old(self).index_buffer,
            final(self).uniform_buffer == old(self).uniform_buffer,
    {
        let w = size[0];
        let h = size[1];
        if w == 0 || h == 0 {
            return ;
        }
        self.targets = SizedTargets { width: w, height: h };
    }

    /// The dimensions the depth buffer (and presentation target) currently
    /// have.
    pub fn depth_dimensions(&self) -> (d: SizedTargets)
        ensures
            d == self.targets,
    {
        self.targets
    }

    /// Renders one frame: flattens the models in order, uploads the
    /// flattened data and the view matrix from offset 0 of the fixed
    /// buffers, and prescribes one indexed draw per mesh.  Fails without
    /// writing anything if the flattened data would exceed a buffer's
    /// capacity.  An empty model list yields a valid frame with an empty
    /// draw list — the pass still clears and presents.
    pub fn render(&mut self, view_matrix: &[u32; 16], models: &[&Model]) -> (r: Result<
        FramePlan,
        RenderError,
    >)
        requires
            old(self).wf(),
        ensures
            final(self).wf(),
            final(self).targets == old(self).targets,
            match r {
                Ok(plan) => {
                    &&& frame_fits(all_meshes(models@))
                    &&& final(self).vertex_buffer.data@ == overwrite_prefix(
                        old(self).vertex_buffer.data@,
                        bytes_of_words(words_of_vertices(flat_vertices(all_meshes(models@)))),
                    )
                    &&& final(self).index_buffer.data@ == overwrite_prefix(
                        old(self).index_buffer.data@,
                        bytes_of_words(flat_indices(all_meshes(models@))),
                    )
                    &&& final(self).uniform_buffer.data@ == bytes_of_words(view_matrix@)
                    &&& plan.vertex_byte_len == VERTEX_STRIDE_BYTES * flat_vertices(
                        all_meshes(models@),
                    ).len()
                    &&& plan.index_byte_len == INDEX_STRIDE_BYTES * flat_indices(
                        all_meshes(models@),
                    ).len()
                    &&& plan.draws@.len() == all_meshes(models@).len()
                    &&& forall|j: int|
                        0 <= j < plan.draws@.len() ==> range_matches(
                            all_meshes(models@),
                            j,
                            #[trigger] plan.draws@[j],
                        )
                },
                Err(e) => {
                    &&& e == RenderError::FrameDataTooLarge
                    &&& !frame_fits(all_meshes(models@))
                    &&& *final(self) == *old(self)
                },
            },
    {
        let frame = match flatten_models(models) {
            Ok(frame) => frame,
            Err(e) => {
                return Err(e);
            },
        };
        let vertex_bytes = vertices_to_le_bytes(&frame.vertices);
        let index_bytes = words_to_le_bytes(&frame.indices);
        let uniform_bytes = matrix_to_le_bytes(view_matrix);
        self.vertex_buffer.write_from_start(&vertex_bytes);
        self.index_buffer.write_from_start(&index_bytes);
        self.uniform_buffer.write_from_start(&uniform_bytes);
        proof {
            crate::buffers::lemma_overwrite_prefix_full(
                old(self).uniform_buffer.data@,
                uniform_bytes@,
            );
        }
        let vertex_byte_len = vertex_bytes.len() as u64;
        let index_byte_len = index_bytes.len() as u64;
        Ok(FramePlan { vertex_byte_len, index_byte_len, draws: frame.draws })
    }

    /// Reads the view matrix back out of the uniform buffer, as the 16 words
    /// that were last uploaded.
    pub fn read_back_view_matrix(&self) -> (ws: Vec<u32>)
        requires
            self.wf(),
        ensures
            ws@ == words_of_bytes(self.uniform_buffer.data@),
            ws@.len() == 16,
    {
        proof {
            crate::bytes::lemma_words_of_bytes_len(self.uniform_buffer.data@);
        }
        words_from_le_bytes(&self.uniform_buffer.data)
    }
}

/// Two consecutive renders with identical inputs and no resize in between
/// leave the vertex, index and uniform buffers byte-identical.  `once` and
/// `twice` are the renderer after the first and second call: each call
/// overwrites the buffer fronts with the same frame bytes (as `render`
/// ensures), so the second changes nothing.
pub proof fn lemma_repeat_render_identical(
    before: Instance,
    once: Instance,
    twice: Instance,
    vertex_frame: Seq<u8>,
    index_frame: Seq<u8>,
    uniform_frame: Seq<u8>,
)
    requires
        once.vertex_buffer.data@ == overwrite_prefix(before.vertex_buffer.data@, vertex_frame),
        twice.vertex_buffer.data@ == overwrite_prefix(once.vertex_buffer.data@, vertex_frame),
        once.index_buffer.data@ == overwrite_prefix(before.index_buffer.data@, index_frame),
        twice.index_buffer.data@ == overwrite_prefix(once.index_buffer.data@, index_frame),
        once.uniform_buffer.data@ == uniform_frame,
        twice.uniform_buffer.data@ == uniform_frame,
    ensures
        twice.vertex_buffer.data@ == once.vertex_buffer.data@,
        twice.index_buffer.data@ == once.index_buffer.data@,
        twice.uniform_buffer.data@ == once.uniform_buffer.data@,
{
    crate::buffers::lemma_overwrite_prefix_idempotent(before.vertex_buffer.data@, vertex_frame);
    crate::buffers::lemma_overwrite_prefix_idempotent(before.index_buffer.data@, index_frame);
}

/// A view matrix uploaded to the uniform buffer reads back as exactly the
/// same 16 words, bit for bit.
pub proof fn lemma_view_matrix_round_trip(matrix: Seq<u32>, uploaded: Seq<u8>)
    requires
        uploaded == bytes_of_words(matrix),
    ensures
        words_of_bytes(uploaded) == matrix,
{
    lemma_words_round_trip(matrix);
}

} // verus!
