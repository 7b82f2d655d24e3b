//! Identifiers: random ones for operations, sessions and transactions, and the
//! digest behind a plan's id.

use rand::Rng;
use sha2::Digest;
use vstd::prelude::*;

use crate::flags::valid_id;
use crate::text::{hex, hex_of, is_hex_digit, is_lower_hex_digit};

verus! {

/// The SHA-256 digest of some bytes.
pub uninterp spec fn sha256(data: Seq<u8>) -> Seq<u8>;

/// `sha2::Sha256::digest`: the digest of `data`, which is thirty-two bytes long
/// and depends on `data` alone.
#[verifier::external_body]
pub(crate) fn digest(data: &[u8]) -> (r: Vec<u8>)
    ensures
        r@ == sha256(data@),
        r@.len() == 32,
{
    sha2::Sha256::digest(data).to_vec()
}

/// `rand::rng().fill_bytes`: sixteen bytes drawn at random. Nothing is said of
/// which bytes they are.
#[verifier::external_body]
pub(crate) fn random_bytes() -> (r: [u8; 16]) {
    let mut bytes = [0u8; 16];
    rand::rng().fill_bytes(&mut bytes);
    bytes
}

pub proof fn lemma_hex(bytes: Seq<u8>)
    ensures
        hex(bytes).len() == 2 * bytes.len(),
        forall|i: int|
            0 <= i < hex(bytes).len() ==> is_lower_hex_digit(#[trigger] hex(bytes)[i])
                && is_hex_digit(hex(bytes)[i]),
    decreases bytes.len(),
{
    if bytes.len() > 0 {
        lemma_hex(bytes.drop_last());
    }
}

/// Thirty-two hexadecimal digits in lower case.
pub open spec fn lower_id(s: Seq<char>) -> bool {
    s.len() == 32 && forall|i: int| 0 <= i < s.len() ==> is_lower_hex_digit(#[trigger] s[i])
}

/// The spelling of some sixteen bytes.
pub open spec fn spells_bytes(s: Seq<char>) -> bool {
    exists|b: Seq<u8>| b.len() == 16 && s == #[trigger] hex(b)
}

/// What spells sixteen bytes is thirty-two lower-case digits, and so an
/// identifier that a command accepts.
pub proof fn a_spelled_id_is_valid(s: Seq<char>)
    requires
        spells_bytes(s),
    ensures
        lower_id(s),
        valid_id(s),
{
    let b = choose|b: Seq<u8>| b.len() == 16 && s == #[trigger] hex(b);
    lemma_hex(b);
}

/// A 128-bit random identifier, hex encoded. Which one it is rests on chance.
pub fn random_id() -> (r: String)
    ensures
        spells_bytes(r@),
        lower_id(r@),
        valid_id(r@),
{
    let bytes = random_bytes();
    id_of(&bytes)
}

/// The identifier that spells sixteen bytes.
pub fn id_of(bytes: &[u8; 16]) -> (r: String)
    ensures
        r@ == hex(bytes@),
        spells_bytes(r@),
        lower_id(r@),
        valid_id(r@),
{
    proof {
        lemma_hex(bytes@);
        assert(bytes@.len() == 16);
    }
    hex_of(bytes.as_slice())
}

} // verus!
