//! Keyed hashing of the raw request body.
//!
//! The digest itself is computed by an outside crate; the library only names
//! its result, so every contract downstream is stated over that name.

use vstd::prelude::*;
use hmac::Mac;

verus! {

pub uninterp spec fn hmac_sha256_of(key: Seq<u8>, msg: Seq<u8>) -> Seq<u8>;

/// Relies on `hmac::Hmac` over `sha2::Sha256`: the digest is a function of
/// the key and message bytes alone, and `new_from_slice` accepts a key of
/// any length for the block-padded HMAC construction.
#[verifier::external_body]
pub(crate) fn hmac_sha256(key: &Vec<u8>, msg: &Vec<u8>) -> (r: Vec<u8>)
    ensures
        r@ == hmac_sha256_of(key@, msg@),
{
    let mut m = <hmac::Hmac<sha2::Sha256> as Mac>::new_from_slice(key.as_slice())
        .expect("HMAC accepts keys of any length");
    m.update(msg.as_slice());
    m.finalize().into_bytes().to_vec()
}

} // verus!
