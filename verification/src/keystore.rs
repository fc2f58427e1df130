//! The derived key store.
//!
//! Provisioning leaves one device primary key; every module-specific key
//! the workload API signs with is derived from it by HMAC-SHA256 over the
//! identity and key name.  The HMAC composition is verified here against
//! the named digest; only the digest itself is the outside crate's.

use vstd::prelude::*;

verus! {

use vstd::string::StrSliceExecFns;
use crate::crypto::{sha256, sha256_of};

/// The HMAC block size of SHA-256, in bytes.
pub const HMAC_BLOCK: usize = 64;

/// Every byte xored with a pad constant.
pub open spec fn xor_bytes(s: Seq<u8>, p: u8) -> Seq<u8> {
    s.map_values(|x: u8| x ^ p)
}

/// A key brought to one HMAC block: hashed first when it is longer than a
/// block, then zero-padded to the block size.
pub open spec fn hmac_block_key(k: Seq<u8>) -> Seq<u8> {
    let base = if k.len() > 64 {
        sha256_of(k)
    } else {
        k
    };
    if base.len() >= 64 {
        base
    } else {
        base + Seq::new((64 - base.len()) as nat, |i: int| 0u8)
    }
}

/// HMAC-SHA256: the outer hash over the opad-masked key and the inner
/// hash, the inner hash over the ipad-masked key and the message.
pub open spec fn hmac_sha256_of(key: Seq<u8>, msg: Seq<u8>) -> Seq<u8> {
    sha256_of(
        xor_bytes(hmac_block_key(key), 0x5c) + sha256_of(
            xor_bytes(hmac_block_key(key), 0x36) + msg,
        ),
    )
}

/// The derived key for an identity and key name: HMAC of their text, in
/// order, under the primary key.
pub open spec fn derived_key_of(primary: Seq<u8>, identity: Seq<char>, key_name: Seq<char>) -> Seq<
    u8,
> {
    hmac_sha256_of(primary, vstd::utf8::encode_utf8(identity) + vstd::utf8::encode_utf8(key_name))
}

/// Xors every byte of a buffer with a pad constant.
fn xor_all(bytes: &Vec<u8>, pad: u8) -> (r: Vec<u8>)
    ensures
        r@ == xor_bytes(bytes@, pad),
{
    let mut out: Vec<u8> = Vec::new();
    let mut i: usize = 0;
    while i < bytes.len()
        invariant
            0 <= i <= bytes@.len(),
            out@.len() == i as int,
            forall|j: int| 0 <= j < i ==> out@[j] == (bytes@[j] ^ pad),
        decreases bytes@.len() - i,
    {
        out.push(bytes[i] ^ pad);
        i = i + 1;
    }
    proof {
        assert(out@ =~= xor_bytes(bytes@, pad));
    }
    out
}

/// Brings the key to one HMAC block: hash when over-long, pad with zeros.
fn block_key(key: &Vec<u8>) -> (r: Vec<u8>)
    ensures
        r@ == hmac_block_key(key@),
{
    let mut base = if key.len() > HMAC_BLOCK {
        sha256(key)
    } else {
        key.clone()
    };
    let ghost kb = base@;
    while base.len() < HMAC_BLOCK
        invariant
            kb.len() <= base@.len() <= 64,
            kb.len() >= 64 ==> base@ == kb,
            base@.len() >= kb.len(),
            forall|j: int| 0 <= j < kb.len() ==> base@[j] == kb[j],
            forall|j: int| kb.len() <= j < base@.len() ==> base@[j] == 0u8,
        decreases 64 - base@.len(),
    {
        base.push(0);
    }
    proof {
        assert(base@ =~= hmac_block_key(key@));
    }
    base
}

/// The two buffers concatenated.
fn concat_bytes(a: &Vec<u8>, b: &Vec<u8>) -> (r: Vec<u8>)
    ensures
        r@ == a@ + b@,
{
    let mut out = a.clone();
    let mut tail = b.clone();
    out.append(&mut tail);
    out
}

/// HMAC-SHA256 of a message under a key.
pub fn hmac_sha256(key: &Vec<u8>, msg: &Vec<u8>) -> (r: Vec<u8>)
    ensures
        r@ == hmac_sha256_of(key@, msg@),
        r@.len() == 32,
{
    let block = block_key(key);
    let ipad = xor_all(&block, 0x36);
    let opad = xor_all(&block, 0x5c);
    let inner = sha256(&concat_bytes(&ipad, msg));
    sha256(&concat_bytes(&opad, &inner))
}

/// A key store whose per-identity keys are HMAC-derived from a single
/// primary key.
#[derive(Debug)]
pub struct DerivedKeyStore {
    pub primary: Vec<u8>,
}

impl DerivedKeyStore {
    /// Wraps a primary key.
    pub fn new(primary: Vec<u8>) -> (r: DerivedKeyStore)
        ensures
            r.primary == primary,
    {
        DerivedKeyStore { primary }
    }

    /// The key the store produces for an identity and key name.
    pub fn get(&self, identity: &str, key_name: &str) -> (r: Vec<u8>)
        ensures
            r@ == derived_key_of(self.primary@, identity@, key_name@),
            r@.len() == 32,
    {
        let id_bytes = identity.as_bytes_vec();
        let name_bytes = key_name.as_bytes_vec();
        let msg = concat_bytes(&id_bytes, &name_bytes);
        hmac_sha256(&self.primary, &msg)
    }
}

} // verus!
