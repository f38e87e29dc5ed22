//! Deriving a public key with no known secret key from arbitrary data.
use crate::hashing::{sha256, sha256_of};
use vstd::prelude::*;

verus! {

/// Whether `bytes` are an x-only secp256k1 public key.
pub uninterp spec fn valid_xonly_key(bytes: Seq<u8>) -> bool;

/// Relies on secp256k1's `XOnlyPublicKey::from_slice`: whether it accepts `bytes`.
#[verifier::external_body]
fn is_xonly_key(bytes: &[u8]) -> (r: bool)
    ensures
        r == valid_xonly_key(bytes@),
{
    secp256k1::XOnlyPublicKey::from_slice(bytes).is_ok()
}

/// `data` hashed `n + 1` times over.
pub open spec fn hash_chain(data: Seq<u8>, n: nat) -> Seq<u8>
    decreases n,
{
    if n == 0 {
        sha256_of(data)
    } else {
        sha256_of(hash_chain(data, (n - 1) as nat))
    }
}

/// Hashes `data` until the digest is an x-only public key, and returns that digest:
/// a point whose secret key nobody knows. `None` only where no key came up within
/// 2^64 hashes.
pub fn hash2curve(data: &[u8]) -> (r: Option<Vec<u8>>)
    ensures
        r matches Some(key) ==> exists|n: nat|
            {
                &&& key@ == hash_chain(data@, n)
                &&& valid_xonly_key(key@)
                &&& forall|m: nat| m < n ==> !valid_xonly_key(#[trigger] hash_chain(data@, m))
            },
        r is None ==> forall|m: nat|
            m <= u64::MAX ==> !valid_xonly_key(#[trigger] hash_chain(data@, m)),
{
    let mut hashed = sha256(data);
    let mut n: u64 = 0;
    loop
        invariant
            hashed@ == hash_chain(data@, n as nat),
            forall|m: nat| m < n ==> !valid_xonly_key(#[trigger] hash_chain(data@, m)),
        decreases u64::MAX - n,
    {
        if is_xonly_key(hashed.as_slice()) {
            return Some(hashed);
        }
        if n == u64::MAX {
            assert forall|m: nat| m <= u64::MAX implies !valid_xonly_key(
                #[trigger] hash_chain(data@, m),
            ) by {
                if m == n {
                } else {
                    assert(m < n);
                }
            }
            return None;
        }
        hashed = sha256(hashed.as_slice());
        n = n + 1;
        assert forall|m: nat| m < n implies !valid_xonly_key(#[trigger] hash_chain(data@, m)) by {
            if m < n - 1 {
            }
        }
    }
}

} // verus!
