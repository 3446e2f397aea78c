//! Byte-wise XOR transform against a fixed mask.
//!
//! The library exposes one executable function, [`encrypt`], which maps each
//! byte of its input to that byte XORed with the constant `0xAA`. The
//! transform is pure, total and self-inverse: applying it twice reproduces
//! the original bytes.

use vstd::prelude::*;

verus! {

/// The fixed mask every byte is XORed with.
pub const MASK: u8 = 0xAA;

/// What the transform does to a single byte.
pub open spec fn transform_byte(b: u8) -> u8 {
    b ^ MASK
}

/// The transform on a whole byte sequence: element `i` of the result is
/// `s[i] XOR 0xAA`, and the length is unchanged.
pub open spec fn transform_seq(s: Seq<u8>) -> Seq<u8> {
    Seq::new(s.len(), |i: int| transform_byte(s[i]))
}

/// Encrypts data by XORing each byte with `MASK` (0xAA).
///
/// The result has the same length as the input, and element `i` equals
/// `data[i] ^ 0xAA`.
pub fn encrypt(data: &[u8]) -> (r: Vec<u8>)
    ensures
        r@ == transform_seq(data@),
{
    let mut out: Vec<u8> = Vec::new();
    let mut i: usize = 0;
    while i < data.len()
        invariant
            i <= data@.len(),
            out@.len() == i,
            forall|j: int| 0 <= j < i ==> out@[j] == transform_byte(data@[j]),
        decreases data@.len() - i,
    {
        out.push(data[i] ^ MASK);
        i = i + 1;
    }
    proof {
        assert(out@ =~= transform_seq(data@));
    }
    out
}

/// XOR with the fixed mask undoes itself on a single byte.
pub proof fn lemma_transform_byte_self_inverse(b: u8)
    ensures
        transform_byte(transform_byte(b)) == b,
{
    assert((b ^ 0xAAu8) ^ 0xAAu8 == b) by (bit_vector);
}

/// The transform is self-inverse: applying it twice to any byte sequence,
/// of any length including empty, reproduces the original sequence.
pub proof fn lemma_transform_self_inverse(s: Seq<u8>)
    ensures
        transform_seq(transform_seq(s)) == s,
{
    let t = transform_seq(transform_seq(s));
    assert forall|i: int| 0 <= i < s.len() implies t[i] == s[i] by {
        lemma_transform_byte_self_inverse(s[i]);
    }
    assert(t =~= s);
}

/// The transform preserves length: for all byte sequences the output is
/// exactly as long as the input.
pub proof fn lemma_transform_len(s: Seq<u8>)
    ensures
        transform_seq(s).len() == s.len(),
{
}

/// Each output byte is the corresponding input byte XORed with `MASK`
/// (0xAA), independent of position and of every other byte.
pub proof fn lemma_transform_index(s: Seq<u8>, i: int)
    requires
        0 <= i < s.len(),
    ensures
        transform_seq(s)[i] == s[i] ^ MASK,
{
}

} // verus!
