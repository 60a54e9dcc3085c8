//! In-memory geometry: vertices, meshes and models, and their layout as GPU
//! buffer words.
//!
//! A vertex is eight 32-bit floats — position (3), texture coordinate (2),
//! normal (3) — carried here as IEEE 754 bit patterns, since the renderer
//! only ever copies them.  Meshes and models are loaded by an external
//! geometry collaborator and consumed read-only.

use vstd::prelude::*;

use crate::bytes::bytes_of_words;
use crate::bytes::lemma_bytes_of_words_push;
use crate::bytes::push_word_le;
use crate::bytes::word_le_bytes;

verus! {

/// One vertex record: a fixed 8-word layout with no padding.
#[derive(Clone, Copy, Debug, PartialEq)]
pub struct Vertex {
    /// Bit patterns of the three position floats.
    pub position: [u32; 3],
    /// Bit patterns of the two texture-coordinate floats.
    pub tex_coords: [u32; 2],
    /// Bit patterns of the three normal floats.
    pub normal: [u32; 3],
}

/// A triangle-list mesh: vertex records plus 32-bit indices into them,
/// three indices per triangle.
#[derive(Debug)]
pub struct Mesh {
    pub vertices: Vec<Vertex>,
    pub indices: Vec<u32>,
}

/// An ordered group of meshes drawn together.
#[derive(Debug)]
pub struct Model {
    pub meshes: Vec<Mesh>,
}

/// The eight buffer words of one vertex, in declaration order.
pub open spec fn vertex_words(v: Vertex) -> Seq<u32> {
    seq![
        v.position@[0],
        v.position@[1],
        v.position@[2],
        v.tex_coords@[0],
        v.tex_coords@[1],
        v.normal@[0],
        v.normal@[1],
        v.normal@[2],
    ]
}

/// The buffer words of a vertex sequence, concatenated in order.
pub open spec fn words_of_vertices(vs: Seq<Vertex>) -> Seq<u32>
    decreases vs.len(),
{
    if vs.len() == 0 {
        Seq::empty()
    } else {
        vertex_words(vs[0]) + words_of_vertices(vs.skip(1))
    }
}

pub proof fn lemma_words_of_vertices_len(vs: Seq<Vertex>)
    ensures
        words_of_vertices(vs).len() == 8 * vs.len(),
    decreases vs.len(),
{
    if vs.len() > 0 {
        lemma_words_of_vertices_len(vs.skip(1));
    }
}

pub proof fn lemma_words_of_vertices_append(a: Seq<Vertex>, b: Seq<Vertex>)
    ensures
        words_of_vertices(a + b) == words_of_vertices(a) + words_of_vertices(b),
    decreases a.len(),
{
    if a.len() == 0 {
        assert(a + b =~= b);
        assert(words_of_vertices(a) + words_of_vertices(b) =~= words_of_vertices(b));
    } else {
        lemma_words_of_vertices_append(a.skip(1), b);
        assert((a + b).skip(1) =~= a.skip(1) + b);
        assert(words_of_vertices(a + b) =~= words_of_vertices(a) + words_of_vertices(b));
    }
}

pub proof fn lemma_words_of_vertices_push(vs: Seq<Vertex>, v: Vertex)
    ensures
        words_of_vertices(vs.push(v)) == words_of_vertices(vs) + vertex_words(v),
{
    let single = seq![v];
    assert(vs.push(v) =~= vs + single);
    lemma_words_of_vertices_append(vs, single);
    assert(single.skip(1) =~= Seq::<Vertex>::empty());
    assert(words_of_vertices(single) == vertex_words(single[0]) + words_of_vertices(
        single.skip(1),
    ));
    assert(words_of_vertices(single) =~= vertex_words(v));
}

/// Appends the eight words of `v` to `out` as little-endian bytes.
pub fn push_vertex_bytes(out: &mut Vec<u8>, v: &Vertex)
    ensures
        final(out)@ == old(out)@ + bytes_of_words(vertex_words(*v)),
{
    let ghost start = out@;
    push_word_le(out, v.position[0]);
    push_word_le(out, v.position[1]);
    push_word_le(out, v.position[2]);
    push_word_le(out, v.tex_coords[0]);
    push_word_le(out, v.tex_coords[1]);
    push_word_le(out, v.normal[0]);
    push_word_le(out, v.normal[1]);
    push_word_le(out, v.normal[2]);
    proof {
        let ws = vertex_words(*v);
        assert(out@ =~= start + word_le_bytes(ws[0]) + word_le_bytes(ws[1]) + word_le_bytes(ws[2])
            + word_le_bytes(ws[3]) + word_le_bytes(ws[4]) + word_le_bytes(ws[5]) + word_le_bytes(
            ws[6],
        ) + word_le_bytes(ws[7]));
        let mut k: Seq<u32> = Seq::empty();
        lemma_bytes_of_words_push(k, ws[0]);
        k = k.push(ws[0]);
        lemma_bytes_of_words_push(k, ws[1]);
        k = k.push(ws[1]);
        lemma_bytes_of_words_push(k, ws[2]);
        k = k.push(ws[2]);
        lemma_bytes_of_words_push(k, ws[3]);
        k = k.push(ws[3]);
        lemma_bytes_of_words_push(k, ws[4]);
        k = k.push(ws[4]);
        lemma_bytes_of_words_push(k, ws[5]);
        k = k.push(ws[5]);
        lemma_bytes_of_words_push(k, ws[6]);
        k = k.push(ws[6]);
        lemma_bytes_of_words_push(k, ws[7]);
        k = k.push(ws[7]);
        assert(k =~= ws);
        assert(out@ =~= start + bytes_of_words(ws));
    }
}

/// Encodes a flattened vertex array as its GPU buffer bytes: eight
/// little-endian words per vertex, 32 bytes per record.
pub fn vertices_to_le_bytes(vs: &Vec<Vertex>) -> (bs: Vec<u8>)
    ensures
        bs@ == bytes_of_words(words_of_vertices(vs@)),
        bs@.len() == 32 * vs@.len(),
{
    let n: usize = vs.len();
    let mut bs: Vec<u8> = Vec::new();
    let mut i: usize = 0;
    proof {
        assert(vs@.take(0) =~= Seq::<Vertex>::empty());
    }
    while i < n
        invariant
            n == vs@.len(),
            i <= n,
            bs@ == bytes_of_words(words_of_vertices(vs@.take(i as int))),
        decreases n - i,
    {
        push_vertex_bytes(&mut bs, &vs[i]);
        proof {
            assert(vs@.take(i + 1) =~= vs@.take(i as int).push(vs@[i as int]));
            lemma_words_of_vertices_push(vs@.take(i as int), vs@[i as int]);
            crate::bytes::lemma_bytes_of_words_append(
                words_of_vertices(vs@.take(i as int)),
                vertex_words(vs@[i as int]),
            );
        }
        i = i + 1;
    }
    proof {
        assert(vs@.take(n as int) =~= vs@);
        lemma_words_of_vertices_len(vs@);
        crate::bytes::lemma_bytes_of_words_len(words_of_vertices(vs@));
    }
    bs
}

impl Mesh {
    /// Assembles vertex records from the flat position / texture-coordinate /
    /// normal arrays handed over by the external mesh loader (bit patterns of
    /// the loader's floats), zipped by vertex in the fixed 3+2+3 layout, and
    /// adopts the index array as is.
    pub fn from_arrays(
        positions: &Vec<u32>,
        tex_coords: &Vec<u32>,
        normals: &Vec<u32>,
        indices: Vec<u32>,
    ) -> (m: Mesh)
        requires
            positions@.len() % 3 == 0,
            2 * positions@.len() == 3 * tex_coords@.len(),
            normals@.len() == positions@.len(),
        ensures
            3 * m.vertices@.len() == positions@.len(),
            forall|i: int|
                0 <= i < m.vertices@.len() ==> #[trigger] vertex_words(m.vertices@[i]) == seq![
                    positions@[3 * i],
                    positions@[3 * i + 1],
                    positions@[3 * i + 2],
                    tex_coords@[2 * i],
                    tex_coords@[2 * i + 1],
                    normals@[3 * i],
                    normals@[3 * i + 1],
                    normals@[3 * i + 2],
                ],
            m.indices@ == indices@,
    {
        let plen: usize = positions.len();
        let tlen: usize = tex_coords.len();
        let nlen: usize = normals.len();
        let n = plen / 3;
        let mut vertices: Vec<Vertex> = Vec::new();
        let mut i: usize = 0;
        while i < n
            invariant
                plen == positions@.len(),
                tlen == tex_coords@.len(),
                nlen == normals@.len(),
                3 * n == positions@.len(),
                2 * positions@.len() == 3 * tex_coords@.len(),
                normals@.len() == positions@.len(),
                i <= n,
                vertices@.len() == i,
                forall|k: int|
                    0 <= k < i ==> #[trigger] vertex_words(vertices@[k]) == seq![
                        positions@[3 * k],
                        positions@[3 * k + 1],
                        positions@[3 * k + 2],
                        tex_coords@[2 * k],
                        tex_coords@[2 * k + 1],
                        normals@[3 * k],
                        normals@[3 * k + 1],
                        normals@[3 * k + 2],
                    ],
            decreases n - i,
        {
            let v = Vertex {
                position: [positions[3 * i], positions[3 * i + 1], positions[3 * i + 2]],
                tex_coords: [tex_coords[2 * i], tex_coords[2 * i + 1]],
                normal: [normals[3 * i], normals[3 * i + 1], normals[3 * i + 2]],
            };
            vertices.push(v);
            i = i + 1;
        }
        Mesh { vertices, indices }
    }
}

impl Model {
    /// A model is just its meshes, kept in the given order.
    pub fn new(meshes: Vec<Mesh>) -> (m: Model)
        ensures
            m.meshes@ == meshes@,
    {
        Model { meshes }
    }
}

} // verus!
