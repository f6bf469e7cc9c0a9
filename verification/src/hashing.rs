//! Content hashing of type descriptors: a trusted digest call plus a
//! verified lower-case hexadecimal encoding of its output.

use vstd::prelude::*;
use sha2::Digest;
use crate::digits::digit_char;
use vstd::string::StringExecFns;

verus! {

/// The digest bytes of a type descriptor string. The digest is a pure
/// function of the characters alone, so it bears a name rather than a
/// written-out algorithm.
pub uninterp spec fn sha256_of(s: Seq<char>) -> Seq<u8>;

/// Relies on sha2::Sha256::digest: a 32-byte digest determined by the
/// input bytes alone, hence by the characters of `s` alone.
#[verifier::external_body]
fn sha256(s: &str) -> (r: Vec<u8>)
    ensures
        r@ == sha256_of(s@),
        r@.len() == 32,
{
    sha2::Sha256::digest(s.as_bytes()).to_vec()
}

/// Lower-case hexadecimal rendering of a byte string, two characters per
/// byte, most significant nibble first.
pub open spec fn hex_of(bytes: Seq<u8>) -> Seq<char>
    decreases bytes.len(),
{
    if bytes.len() == 0 {
        Seq::empty()
    } else {
        hex_of(bytes.drop_last()) + seq![
            digit_char((bytes.last() >> 4) as nat),
            digit_char((bytes.last() & 0xf) as nat),
        ]
    }
}

/// Renders a byte string in lower-case hexadecimal.
pub fn hex_encode(bytes: &Vec<u8>) -> (r: String)
    ensures
        r@ == hex_of(bytes@),
{
    let mut out = String::new();
    let mut i: usize = 0;
    while i < bytes.len()
        invariant
            0 <= i <= bytes@.len(),
            out@ == hex_of(bytes@.take(i as int)),
        decreases bytes@.len() - i,
    {
        let b = bytes[i];
        proof {
            assert(b >> 4 < 16) by (bit_vector);
            assert(b & 0xf < 16) by (bit_vector);
        }
        out.append(crate::digits::digit_str(b >> 4));
        out.append(crate::digits::digit_str(b & 0xf));
        proof {
            assert(bytes@.take(i + 1).drop_last() =~= bytes@.take(i as int));
            assert(bytes@.take(i + 1).last() == b);
            assert(out@ =~= hex_of(bytes@.take(i + 1)));
        }
        i = i + 1;
    }
    proof {
        assert(bytes@.take(bytes@.len() as int) =~= bytes@);
    }
    out
}

/// The content hash of a type descriptor: the lower-case hexadecimal form
/// of its digest.
pub open spec fn hash_of(s: Seq<char>) -> Seq<char> {
    hex_of(sha256_of(s))
}

/// Hashes a type descriptor string into its content-hash string, always
/// sixty-four characters.
pub fn hash_str(s: &str) -> (r: String)
    ensures
        r@ == hash_of(s@),
        r@.len() == 64,
{
    let digest = sha256(s);
    proof {
        lemma_hex_len(digest@);
    }
    hex_encode(&digest)
}

/// Hashing is deterministic: the same type descriptor always yields the
/// same content hash, in every call.
pub proof fn lemma_hash_deterministic(s1: Seq<char>, s2: Seq<char>)
    requires
        s1 == s2,
    ensures
        hash_of(s1) == hash_of(s2),
{
}

/// Two bytes of output per byte of input, so a digest of thirty-two bytes
/// renders as sixty-four characters.
pub proof fn lemma_hex_len(bytes: Seq<u8>)
    ensures
        hex_of(bytes).len() == 2 * bytes.len(),
    decreases bytes.len(),
{
    if bytes.len() > 0 {
        lemma_hex_len(bytes.drop_last());
    }
}

} // verus!
