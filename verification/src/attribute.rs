//! CPU-side vertex attribute data and its device byte layout.

use vstd::prelude::*;

verus! {

/// The byte expansion of one 32-bit word, least significant byte first: the
/// in-memory order of a scalar on the little-endian targets this crate
/// supports.
pub open spec fn word_bytes(w: u32) -> Seq<u8> {
    seq![
        (w & 0xff) as u8,
        ((w >> 8) & 0xff) as u8,
        ((w >> 16) & 0xff) as u8,
        ((w >> 24) & 0xff) as u8,
    ]
}

/// The device byte layout of a sequence of 32-bit words: each word serialized
/// in its natural four-byte width, densely packed, no padding between
/// elements.
pub open spec fn packed_bytes(ws: Seq<u32>) -> Seq<u8>
    decreases ws.len(),
{
    if ws.len() == 0 {
        Seq::empty()
    } else {
        packed_bytes(ws.drop_last()) + word_bytes(ws.last())
    }
}

/// The packed layout spends exactly four bytes on each word.
pub proof fn lemma_packed_bytes_len(ws: Seq<u32>)
    ensures
        packed_bytes(ws).len() == 4 * ws.len(),
    decreases ws.len(),
{
    if ws.len() > 0 {
        lemma_packed_bytes_len(ws.drop_last());
    }
}

/// One piece of per-vertex geometry data with 32-bit floating-point scalars:
/// an ordered sequence of values, each held as its IEEE-754 bit pattern so
/// that the cache can reason about the exact bytes it uploads.
pub struct AttributeF32 {
    data: Vec<u32>,
}

impl View for AttributeF32 {
    type V = Seq<u32>;

    closed spec fn view(&self) -> Seq<u32> {
        self.data@
    }
}

impl AttributeF32 {
    /// Wraps a sequence of scalar bit patterns as an attribute.
    pub fn new(data: Vec<u32>) -> (r: Self)
        ensures
            r@ == data@,
    {
        AttributeF32 { data }
    }

    /// Read-only access to the scalar sequence.
    pub fn borrow_data(&self) -> (r: &Vec<u32>)
        ensures
            r@ == self@,
    {
        &self.data
    }
}

/// Serializes a word sequence into its device byte layout.
pub fn encode_words(data: &Vec<u32>) -> (out: Vec<u8>)
    ensures
        out@ == packed_bytes(data@),
{
    let mut out: Vec<u8> = Vec::new();
    let mut i: usize = 0;
    while i < data.len()
        invariant
            i <= data.len(),
            out@ == packed_bytes(data@.take(i as int)),
        decreases data.len() - i,
    {
        let w = data[i];
        assert(w & 0xff < 256 && (w >> 8) & 0xff < 256 && (w >> 16) & 0xff < 256 && (w >> 24)
            & 0xff < 256) by (bit_vector);
        out.push((w & 0xff) as u8);
        out.push(((w >> 8) & 0xff) as u8);
        out.push(((w >> 16) & 0xff) as u8);
        out.push(((w >> 24) & 0xff) as u8);
        proof {
            let t = data@.take(i + 1 as int);
            assert(t.drop_last() =~= data@.take(i as int));
            assert(out@ =~= packed_bytes(t.drop_last()) + word_bytes(t.last()));
        }
        i = i + 1;
    }
    proof {
        assert(data@.take(data@.len() as int) =~= data@);
    }
    out
}

} // verus!
