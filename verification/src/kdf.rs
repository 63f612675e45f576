//! The key-derivation layer: an X25519 shared secret is run through
//! HKDF-SHA-256 (RFC 5869) under a fixed domain-separation label.

use vstd::prelude::*;
use crate::keys::{basepoint, zero_bytes, x25519, scalar_mult, wipe, KEY_SIZE};

verus! {

/// Output size of SHA-256 in bytes.
pub const HASH_SIZE: usize = 32;

/// The most output HKDF-SHA-256 can produce: 255 blocks of the hash size.
pub const MAX_OKM_LEN: usize = 255 * 32;

/// The ASCII bytes of the domain-separation label `XSTREAM_X25519_HKDF`
/// (19 bytes, no terminator). It is passed byte-for-byte as the HKDF
/// `info`, so keys derived here cannot be confused with keys any other
/// HKDF use derives from the same shared secret.
pub open spec fn hkdf_info() -> Seq<u8> {
    seq![
        88u8, 83u8, 84u8, 82u8, 69u8, 65u8, 77u8, 95u8, 88u8, 50u8, 53u8, 53u8, 49u8, 57u8,
        95u8, 72u8, 75u8, 68u8, 70u8,
    ]
}

/// The domain-separation label as bytes: ASCII `XSTREAM_X25519_HKDF`.
fn hkdf_info_bytes() -> (r: Vec<u8>)
    ensures
        r@ == hkdf_info(),
{
    let mut v: Vec<u8> = Vec::new();
    v.push(88u8);
    v.push(83u8);
    v.push(84u8);
    v.push(82u8);
    v.push(69u8);
    v.push(65u8);
    v.push(77u8);
    v.push(95u8);
    v.push(88u8);
    v.push(50u8);
    v.push(53u8);
    v.push(53u8);
    v.push(49u8);
    v.push(57u8);
    v.push(95u8);
    v.push(72u8);
    v.push(75u8);
    v.push(68u8);
    v.push(70u8);
    proof {
        assert(v@ =~= hkdf_info());
    }
    v
}

/// A zero block of the hash's output size: the salt HKDF uses when the
/// caller supplies none.
fn zero_salt_bytes() -> (r: Vec<u8>)
    ensures
        r@ == zero_bytes(HASH_SIZE as nat),
{
    let mut v: Vec<u8> = Vec::new();
    let mut i: usize = 0;
    while i < HASH_SIZE
        invariant
            v@.len() == i,
            i <= HASH_SIZE,
            forall|j: int| 0 <= j < v@.len() ==> v@[j] == 0u8,
        decreases HASH_SIZE - i,
    {
        v.push(0u8);
        i = i + 1;
    }
    proof {
        assert(v@ =~= zero_bytes(HASH_SIZE as nat));
    }
    v
}

/// What HKDF-SHA-256 (RFC 5869) returns: `length` bytes of output keying
/// material, expanded under `info` from the extract of `salt` and the
/// input key material `ikm`. A pure function of its arguments.
pub uninterp spec fn hkdf_sha256(salt: Seq<u8>, ikm: Seq<u8>, info: Seq<u8>, length: nat) -> Seq<u8>;

/// Relies on `hkdf::Hkdf::<sha2::Sha256>::new` followed by `Hkdf::expand`:
/// the HKDF-SHA-256 extract-then-expand of RFC 5869. `expand` fills the
/// whole output buffer and fails only when more than 255 hash blocks are
/// asked for, which the `requires` rules out. The output depends on the
/// salt, input key material, info label and length alone.
#[verifier::external_body]
fn hkdf_sha256_derive(salt: &[u8], ikm: &[u8], info: &[u8], length: usize) -> (r: Vec<u8>)
    requires
        length <= MAX_OKM_LEN,
    ensures
        r@ == hkdf_sha256(salt@, ikm@, info@, length as nat),
        r@.len() == length,
{
    let hk = hkdf::Hkdf::<sha2::Sha256>::new(Some(salt), ikm);
    let mut okm = vec![0u8; length];
    hk.expand(info, okm.as_mut_slice())
        .expect("HKDF-SHA-256 output length is within 255 hash blocks");
    okm
}

/// The spec-level view of an optional byte-slice argument.
pub open spec fn opt_bytes_view(salt: Option<&[u8]>) -> Option<Seq<u8>> {
    match salt {
        Some(s) => Some(s@),
        None => None,
    }
}

/// The salt HKDF extracts with: the caller's salt when present, otherwise
/// a zero block of the hash's output size.
pub open spec fn salt_or_zero(salt: Option<Seq<u8>>) -> Seq<u8> {
    match salt {
        Some(s) => s,
        None => zero_bytes(HASH_SIZE as nat),
    }
}

/// The symmetric key that `derive_key` produces: HKDF-SHA-256 of the
/// X25519 shared secret of the two keys, under the caller's salt (or the
/// zero block when absent) and the fixed domain-separation label.
pub open spec fn derived_key(
    private_key: Seq<u8>,
    public_key: Seq<u8>,
    salt: Option<Seq<u8>>,
    length: nat,
) -> Seq<u8> {
    hkdf_sha256(salt_or_zero(salt), x25519(private_key, public_key), hkdf_info(), length)
}

/// Derive a `length`-byte symmetric encryption key from the combination of
/// a private and a public key and an optional salt, using X25519
/// Diffie-Hellman and HKDF-SHA-256. The shared secret is wiped before the
/// function returns. The last clause is Diffie-Hellman agreement, lifted
/// to the derived key: when `public_key` is the public key of some scalar,
/// that scalar derives the same key from this private key's public key.
pub fn derive_key(private_key: &[u8], public_key: &[u8], salt: Option<&[u8]>, length: usize) -> (r:
    Vec<u8>)
    requires
        private_key@.len() == KEY_SIZE,
        public_key@.len() == KEY_SIZE,
        length <= MAX_OKM_LEN,
    ensures
        r@ == derived_key(private_key@, public_key@, opt_bytes_view(salt), length as nat),
        r@.len() == length,
        forall|other: Seq<u8>|
            public_key@ == x25519(other, basepoint()) ==> r@ == derived_key(
                other,
                x25519(private_key@, basepoint()),
                opt_bytes_view(salt),
                length as nat,
            ),
{
    let mut shared_secret = scalar_mult(private_key, public_key);
    let info = hkdf_info_bytes();
    let symmetric_key = match salt {
        Some(s) => hkdf_sha256_derive(s, shared_secret.as_slice(), info.as_slice(), length),
        None => {
            let zero_salt = zero_salt_bytes();
            hkdf_sha256_derive(
                zero_salt.as_slice(),
                shared_secret.as_slice(),
                info.as_slice(),
                length,
            )
        },
    };
    wipe(&mut shared_secret);
    symmetric_key
}

} // verus!
