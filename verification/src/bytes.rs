//! Little-endian encoding of 32-bit words into GPU buffer bytes, and the
//! decoding used by the uniform-buffer read-back path.

use vstd::prelude::*;

verus! {

/// The four bytes of one word, least significant first.
pub open spec fn word_le_bytes(w: u32) -> Seq<u8> {
    seq![
        (w & 0xff) as u8,
        ((w >> 8) & 0xff) as u8,
        ((w >> 16) & 0xff) as u8,
        ((w >> 24) & 0xff) as u8,
    ]
}

/// The word encoded by four bytes, least significant first.
pub open spec fn word_of_le(b0: u8, b1: u8, b2: u8, b3: u8) -> u32 {
    (b0 as u32) | ((b1 as u32) << 8) | ((b2 as u32) << 16) | ((b3 as u32) << 24)
}

/// A sequence of words laid out as consecutive little-endian byte quadruples.
pub open spec fn bytes_of_words(ws: Seq<u32>) -> Seq<u8>
    decreases ws.len(),
{
    if ws.len() == 0 {
        Seq::empty()
    } else {
        word_le_bytes(ws[0]) + bytes_of_words(ws.skip(1))
    }
}

/// The words encoded by a byte sequence, read in consecutive quadruples.
pub open spec fn words_of_bytes(bs: Seq<u8>) -> Seq<u32>
    decreases bs.len(),
{
    if bs.len() < 4 {
        Seq::empty()
    } else {
        seq![word_of_le(bs[0], bs[1], bs[2], bs[3])] + words_of_bytes(bs.skip(4))
    }
}

/// Decoding the four little-endian bytes of a word gives the word back.
pub proof fn lemma_word_round_trip(w: u32)
    ensures
        word_of_le(
            (w & 0xff) as u8,
            ((w >> 8) & 0xff) as u8,
            ((w >> 16) & 0xff) as u8,
            ((w >> 24) & 0xff) as u8,
        ) == w,
{
    assert(((w & 0xff) as u8 as u32) | (((w >> 8) & 0xff) as u8 as u32) << 8 | (((w >> 16)
        & 0xff) as u8 as u32) << 16 | (((w >> 24) & 0xff) as u8 as u32) << 24 == w)
        by (bit_vector);
}

pub proof fn lemma_bytes_of_words_len(ws: Seq<u32>)
    ensures
        bytes_of_words(ws).len() == 4 * ws.len(),
    decreases ws.len(),
{
    if ws.len() > 0 {
        lemma_bytes_of_words_len(ws.skip(1));
    }
}

pub proof fn lemma_bytes_of_words_append(a: Seq<u32>, b: Seq<u32>)
    ensures
        bytes_of_words(a + b) == bytes_of_words(a) + bytes_of_words(b),
    decreases a.len(),
{
    if a.len() == 0 {
        assert(a + b =~= b);
        assert(bytes_of_words(a) + bytes_of_words(b) =~= bytes_of_words(b));
    } else {
        lemma_bytes_of_words_append(a.skip(1), b);
        assert((a + b).skip(1) =~= a.skip(1) + b);
        assert(bytes_of_words(a + b) =~= bytes_of_words(a) + bytes_of_words(b));
    }
}

pub proof fn lemma_bytes_of_words_push(ws: Seq<u32>, w: u32)
    ensures
        bytes_of_words(ws.push(w)) == bytes_of_words(ws) + word_le_bytes(w),
{
    let single = seq![w];
    assert(ws.push(w) =~= ws + single);
    lemma_bytes_of_words_append(ws, single);
    assert(single.skip(1) =~= Seq::<u32>::empty());
    assert(bytes_of_words(single) == word_le_bytes(single[0]) + bytes_of_words(single.skip(1)));
    assert(bytes_of_words(single) =~= word_le_bytes(w));
}

/// Decoding an encoded word sequence gives the words back.
pub proof fn lemma_words_round_trip(ws: Seq<u32>)
    ensures
        words_of_bytes(bytes_of_words(ws)) == ws,
    decreases ws.len(),
{
    if ws.len() == 0 {
        assert(words_of_bytes(bytes_of_words(ws)) =~= ws);
    } else {
        let bs = bytes_of_words(ws);
        let w = ws[0];
        lemma_bytes_of_words_len(ws.skip(1));
        assert(bs.skip(4) =~= bytes_of_words(ws.skip(1)));
        lemma_words_round_trip(ws.skip(1));
        lemma_word_round_trip(w);
        assert(words_of_bytes(bs) =~= ws);
    }
}

/// Appends the four little-endian bytes of `w` to `out`.
pub fn push_word_le(out: &mut Vec<u8>, w: u32)
    ensures
        final(out)@ == old(out)@ + word_le_bytes(w),
{
    out.push((w & 0xff) as u8);
    out.push(((w >> 8) & 0xff) as u8);
    out.push(((w >> 16) & 0xff) as u8);
    out.push(((w >> 24) & 0xff) as u8);
    assert(out@ =~= old(out)@ + word_le_bytes(w));
}

/// Reads the word starting at byte offset `pos`.
pub fn read_word_le(bs: &Vec<u8>, pos: usize) -> (w: u32)
    requires
        pos + 4 <= bs@.len(),
    ensures
        w == word_of_le(bs@[pos as int], bs@[pos + 1], bs@[pos + 2], bs@[pos + 3]),
{
    let len: usize = bs.len();
    assert(pos + 4 <= len);
    let b0 = bs[pos];
    let b1 = bs[pos + 1];
    let b2 = bs[pos + 2];
    let b3 = bs[pos + 3];
    (b0 as u32) | ((b1 as u32) << 8) | ((b2 as u32) << 16) | ((b3 as u32) << 24)
}

/// The word at index `j` of a decoded byte sequence.
pub proof fn lemma_words_of_bytes_index(bs: Seq<u8>, j: int)
    requires
        0 <= j,
        4 * j + 4 <= bs.len(),
    ensures
        words_of_bytes(bs).len() > j,
        words_of_bytes(bs)[j] == word_of_le(bs[4 * j], bs[4 * j + 1], bs[4 * j + 2], bs[4 * j + 3]),
    decreases j,
{
    if j > 0 {
        lemma_words_of_bytes_index(bs.skip(4), j - 1);
    }
}

pub proof fn lemma_words_of_bytes_len(bs: Seq<u8>)
    requires
        bs.len() % 4 == 0,
    ensures
        4 * words_of_bytes(bs).len() == bs.len(),
    decreases bs.len(),
{
    if bs.len() >= 4 {
        assert(bs.skip(4).len() % 4 == 0);
        lemma_words_of_bytes_len(bs.skip(4));
    }
}

/// Encodes a word vector as consecutive little-endian byte quadruples.
pub fn words_to_le_bytes(ws: &Vec<u32>) -> (bs: Vec<u8>)
    ensures
        bs@ == bytes_of_words(ws@),
        bs@.len() == 4 * ws@.len(),
{
    let n: usize = ws.len();
    let mut bs: Vec<u8> = Vec::new();
    let mut i: usize = 0;
    proof {
        assert(ws@.take(0) =~= Seq::<u32>::empty());
    }
    while i < n
        invariant
            n == ws@.len(),
            i <= n,
            bs@ == bytes_of_words(ws@.take(i as int)),
        decreases n - i,
    {
        push_word_le(&mut bs, ws[i]);
        proof {
            assert(ws@.take(i + 1) =~= ws@.take(i as int).push(ws@[i as int]));
            lemma_bytes_of_words_push(ws@.take(i as int), ws@[i as int]);
        }
        i = i + 1;
    }
    proof {
        assert(ws@.take(n as int) =~= ws@);
        lemma_bytes_of_words_len(ws@);
    }
    bs
}

/// Encodes the 16 words of a view matrix as its 64 uniform-buffer bytes.
pub fn matrix_to_le_bytes(m: &[u32; 16]) -> (bs: Vec<u8>)
    ensures
        bs@ == bytes_of_words(m@),
        bs@.len() == 64,
{
    let mut bs: Vec<u8> = Vec::new();
    let mut i: usize = 0;
    proof {
        assert(m@.take(0) =~= Seq::<u32>::empty());
    }
    while i < 16
        invariant
            i <= 16,
            bs@ == bytes_of_words(m@.take(i as int)),
        decreases 16 - i,
    {
        push_word_le(&mut bs, m[i]);
        proof {
            assert(m@.take(i + 1) =~= m@.take(i as int).push(m@[i as int]));
            lemma_bytes_of_words_push(m@.take(i as int), m@[i as int]);
        }
        i = i + 1;
    }
    proof {
        assert(m@.take(16) =~= m@);
        lemma_bytes_of_words_len(m@);
    }
    bs
}

/// Decodes a whole byte vector into its words.
pub fn words_from_le_bytes(bs: &Vec<u8>) -> (ws: Vec<u32>)
    requires
        bs@.len() % 4 == 0,
    ensures
        ws@ == words_of_bytes(bs@),
{
    proof {
        lemma_words_of_bytes_len(bs@);
    }
    let len: usize = bs.len();
    let n = len / 4;
    let mut ws: Vec<u32> = Vec::new();
    let mut j: usize = 0;
    while j < n
        invariant
            len == bs@.len(),
            4 * n == bs@.len(),
            j <= n,
            ws@.len() == j,
            forall|k: int|
                0 <= k < j ==> ws@[k] == word_of_le(
                    bs@[4 * k],
                    bs@[4 * k + 1],
                    bs@[4 * k + 2],
                    bs@[4 * k + 3],
                ),
        decreases n - j,
    {
        let w = read_word_le(bs, 4 * j);
        ws.push(w);
        j = j + 1;
    }
    proof {
        lemma_words_of_bytes_len(bs@);
        assert forall|k: int| 0 <= k < n implies ws@[k] == words_of_bytes(bs@)[k] by {
            lemma_words_of_bytes_index(bs@, k);
        }
        assert(ws@ =~= words_of_bytes(bs@));
    }
    ws
}

} // verus!
