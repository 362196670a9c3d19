//! The fixed-width command frame of the line protocol.
//!
//! A well-formed input line is at least 8 bytes: a 4-byte caller-chosen
//! correlation id, a 4-byte method selector, and the method-specific
//! payload in the rest of the line. The only inbound method is `NBLK`,
//! a request to verify and submit a hex-encoded block.

use vstd::prelude::*;

verus! {

/// The method selector of a block-submission request, ASCII `NBLK`.
pub open spec fn method_nblk() -> Seq<u8> {
    seq![78u8, 66u8, 76u8, 75u8]
}

/// One parsed command frame: `id` and `method` are exactly 4 bytes,
/// `payload` is the rest of the line.
pub struct Frame {
    pub id: Vec<u8>,
    pub method: Vec<u8>,
    pub payload: Vec<u8>,
}

impl Frame {
    /// The three parts a frame cuts the line `s` into.
    pub open spec fn is_split_of(&self, s: Seq<u8>) -> bool {
        &&& self.id@ == s.subrange(0, 4)
        &&& self.method@ == s.subrange(4, 8)
        &&& self.payload@ == s.skip(8)
    }
}

/// Copies `src[from..to]` into a fresh vector.
fn copy_range(src: &[u8], from: usize, to: usize) -> (r: Vec<u8>)
    requires
        from <= to <= src@.len(),
    ensures
        r@ == src@.subrange(from as int, to as int),
{
    let mut r: Vec<u8> = Vec::new();
    let mut i: usize = from;
    while i < to
        invariant
            from <= i <= to <= src@.len(),
            r@.len() == i - from,
            forall|j: int| 0 <= j < r@.len() ==> r@[j] == src@[from + j],
        decreases to - i,
    {
        r.push(src[i]);
        i += 1;
    }
    proof {
        assert(r@ =~= src@.subrange(from as int, to as int));
    }
    r
}

/// Splits one trimmed input line into a frame, or rejects a line shorter
/// than the 8 header bytes. The reject is non-fatal to the command loop:
/// the caller logs it and reads the next line.
pub fn parse_frame(line: &[u8]) -> (r: Option<Frame>)
    ensures
        r is Some <==> line@.len() >= 8,
        r matches Some(f) ==> f.is_split_of(line@),
{
    if line.len() < 8 {
        return None;
    }
    let id = copy_range(line, 0, 4);
    let method = copy_range(line, 4, 8);
    let payload = copy_range(line, 8, line.len());
    proof {
        assert(line@.subrange(8, line@.len() as int) =~= line@.skip(8));
    }
    Some(Frame { id, method, payload })
}

/// Tests whether a frame's method selects block submission.
pub fn is_submit_method(method: &[u8]) -> (r: bool)
    ensures
        r <==> method@ == method_nblk(),
{
    let r = method.len() == 4 && method[0] == 78 && method[1] == 66 && method[2] == 76
        && method[3] == 75;
    proof {
        if r {
            assert(method@ =~= method_nblk());
        }
    }
    r
}

} // verus!
