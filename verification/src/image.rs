//! Consistency check between a program image and the digest recorded when
//! the circuit was set up.

use vstd::prelude::*;

verus! {

/// The lowercase hexadecimal MD5 digest of a byte sequence, as a sequence of
/// bytes of the 32-character hex string. Named, not spelled out: the digest
/// is a function of the data alone, and nothing here re-implements it.
pub uninterp spec fn md5_hex_of(data: Seq<u8>) -> Seq<u8>;

/// Relies on md5::compute (md5 crate): the 16-byte digest of the data,
/// printed by its LowerHex impl as two hex digits per byte, 32 characters.
#[verifier::external_body]
fn md5_hex(data: &Vec<u8>) -> (r: Vec<u8>)
    ensures
        r@ == md5_hex_of(data@),
        r@.len() == 32,
{
    format!("{:x}", md5::compute(data.as_slice())).into_bytes()
}

/// Compares two byte vectors.
fn bytes_eq(a: &Vec<u8>, b: &Vec<u8>) -> (r: bool)
    ensures
        r == (a@ == b@),
{
    if a.len() != b.len() {
        return false;
    }
    let mut i: usize = 0;
    while i < a.len()
        invariant
            i <= a@.len(),
            a@.len() == b@.len(),
            forall|j: int| 0 <= j < i ==> a@[j] == b@[j],
        decreases a@.len() - i,
    {
        if a[i] != b[i] {
            return false;
        }
        i = i + 1;
    }
    proof {
        assert(a@ =~= b@);
    }
    true
}

/// Checks a program image against the digest recorded at setup time, if one
/// was recorded: succeeds exactly when no digest was recorded or the image's
/// digest equals the recorded one.
pub fn image_consistent_check(expected_md5: &Option<Vec<u8>>, wasm_image: &Vec<u8>) -> (r: bool)
    ensures
        r == (match expected_md5 {
            Option::None => true,
            Option::Some(expected) => expected@ == md5_hex_of(wasm_image@),
        }),
{
    match expected_md5 {
        Option::None => true,
        Option::Some(expected) => {
            let digest = md5_hex(wasm_image);
            bytes_eq(expected, &digest)
        },
    }
}

} // verus!
