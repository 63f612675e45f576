//! Public and private keys for X25519.

use vstd::prelude::*;
use vstd::slice::slice_to_vec;
use crate::error::InvalidKeyLength;

verus! {

/// Length of an X25519 key (private or public) in bytes.
pub const KEY_SIZE: usize = 32;

/// A run of `n` zero bytes.
pub open spec fn zero_bytes(n: nat) -> Seq<u8> {
    Seq::new(n, |i: int| 0u8)
}

/// The X25519 base point of RFC 7748 (Montgomery u-coordinate 9), as the
/// 32-byte string that scalar-base multiplication uses.
pub open spec fn basepoint() -> Seq<u8> {
    seq![9u8] + zero_bytes(31)
}

/// What `x25519_dalek::x25519` returns: the X25519 function of RFC 7748,
/// scalar multiplication on Curve25519 with the scalar clamped inside.
/// All 32-byte strings are accepted as points; low-order points are not
/// rejected. The result depends on the scalar and point bytes alone.
pub uninterp spec fn x25519(scalar: Seq<u8>, point: Seq<u8>) -> Seq<u8>;

/// Relies on `x25519_dalek::x25519`: the X25519 Diffie-Hellman function of
/// RFC 7748. It returns a 32-byte point and depends on its arguments alone.
/// The last clause is the Diffie-Hellman agreement that RFC 7748 (section
/// 6.1) states of this function: when the point is the public key of some
/// scalar, the result equals what that scalar computes from this scalar's
/// public key.
#[verifier::external_body]
pub(crate) fn scalar_mult(scalar: &[u8], point: &[u8]) -> (r: Vec<u8>)
    requires
        scalar@.len() == KEY_SIZE,
        point@.len() == KEY_SIZE,
    ensures
        r@ == x25519(scalar@, point@),
        r@.len() == KEY_SIZE,
        forall|other: Seq<u8>|
            point@ == x25519(other, basepoint()) ==> r@ == x25519(
                other,
                x25519(scalar@, basepoint()),
            ),
{
    let mut k = [0u8; 32];
    let mut u = [0u8; 32];
    k.copy_from_slice(scalar);
    u.copy_from_slice(point);
    x25519_dalek::x25519(k, u).to_vec()
}

/// The 32-byte encoding of the base point.
pub(crate) fn basepoint_bytes() -> (r: Vec<u8>)
    ensures
        r@ == basepoint(),
{
    let mut v: Vec<u8> = Vec::new();
    v.push(9u8);
    let mut i: usize = 0;
    while i < 31
        invariant
            v@.len() == i + 1,
            i <= 31,
            v@[0] == 9u8,
            forall|j: int| 1 <= j < v@.len() ==> v@[j] == 0u8,
        decreases 31 - i,
    {
        v.push(0u8);
        i = i + 1;
    }
    proof {
        assert(v@ =~= basepoint());
    }
    v
}

/// Relies on `clear_on_drop::clear::Clear` on a byte slice: every byte of
/// the buffer is overwritten with zero through a write that the compiler
/// cannot elide; the length is unchanged.
#[verifier::external_body]
pub(crate) fn wipe(buf: &mut Vec<u8>)
    ensures
        final(buf)@ == zero_bytes(old(buf)@.len()),
{
    clear_on_drop::clear::Clear::clear(buf.as_mut_slice());
}

/// Relies on `rand::rngs::OsRng` through `rand::RngCore::fill_bytes`: the
/// buffer is filled from the operating system's CSPRNG. Nothing is promised
/// of the bytes themselves; only the length is fixed.
#[verifier::external_body]
fn os_random_bytes(len: usize) -> (r: Vec<u8>)
    ensures
        r@.len() == len,
{
    let mut buf = vec![0u8; len];
    rand::RngCore::fill_bytes(&mut rand::rngs::OsRng, buf.as_mut_slice());
    buf
}

/// An X25519 private key: a 32-byte secret scalar. The key material is
/// overwritten with zeroes when the value is dropped.
pub struct PrivateKey {
    bytes: Vec<u8>,
}

impl View for PrivateKey {
    type V = Seq<u8>;

    closed spec fn view(&self) -> Seq<u8> {
        self.bytes@
    }
}

impl PrivateKey {
    /// Well-formed: exactly 32 bytes of key material.
    pub open spec fn wf(&self) -> bool {
        self@.len() == KEY_SIZE
    }

    /// Generate a random key from the operating system's CSPRNG.
    pub fn generate() -> (r: PrivateKey)
        ensures
            r.wf(),
    {
        PrivateKey { bytes: os_random_bytes(KEY_SIZE) }
    }

    /// Create a new key holding a copy of the given bytes; fails with
    /// `InvalidKeyLength` exactly when the slice is not 32 bytes long.
    pub fn new(bytes: &[u8]) -> (r: Result<PrivateKey, InvalidKeyLength>)
        ensures
            match r {
                Ok(k) => bytes@.len() == KEY_SIZE && k.wf() && k@ == bytes@,
                Err(_) => bytes@.len() != KEY_SIZE,
            },
    {
        if bytes.len() != KEY_SIZE {
            return Err(InvalidKeyLength);
        }
        Ok(PrivateKey { bytes: slice_to_vec(bytes) })
    }

    /// Obtain the public key that corresponds to this private key, by
    /// scalar-base multiplication.
    pub fn public_key(&self) -> (r: PublicKey)
        requires
            self.wf(),
        ensures
            r.wf(),
            r@ == x25519(self@, basepoint()),
    {
        let bp = basepoint_bytes();
        PublicKey { bytes: scalar_mult(self.bytes.as_slice(), bp.as_slice()) }
    }

    /// Lend the key material as a read-only byte slice.
    pub fn as_bytes(&self) -> (r: &[u8])
        ensures
            r@ == self@,
    {
        self.bytes.as_slice()
    }
}

impl Drop for PrivateKey {
    /// Relies on `clear_on_drop::clear::Clear`: the private scalar is
    /// zeroed before its storage is released, on every exit path.
    #[verifier::external_body]
    fn drop(&mut self)
        opens_invariants none
        no_unwind
    {
        clear_on_drop::clear::Clear::clear(self.bytes.as_mut_slice());
    }
}

/// An X25519 public key: a 32-byte compressed Montgomery-u coordinate.
/// Not secret, freely copyable; no wiping requirement.
pub struct PublicKey {
    bytes: Vec<u8>,
}

impl View for PublicKey {
    type V = Seq<u8>;

    closed spec fn view(&self) -> Seq<u8> {
        self.bytes@
    }
}

impl Clone for PublicKey {
    fn clone(&self) -> (r: Self)
        ensures
            r@ == self@,
    {
        PublicKey { bytes: slice_to_vec(self.bytes.as_slice()) }
    }
}

impl PublicKey {
    /// Well-formed: exactly 32 bytes.
    pub open spec fn wf(&self) -> bool {
        self@.len() == KEY_SIZE
    }

    /// Create a new key holding a copy of the given bytes; fails with
    /// `InvalidKeyLength` exactly when the slice is not 32 bytes long.
    pub fn new(bytes: &[u8]) -> (r: Result<PublicKey, InvalidKeyLength>)
        ensures
            match r {
                Ok(k) => bytes@.len() == KEY_SIZE && k.wf() && k@ == bytes@,
                Err(_) => bytes@.len() != KEY_SIZE,
            },
    {
        if bytes.len() != KEY_SIZE {
            return Err(InvalidKeyLength);
        }
        Ok(PublicKey { bytes: slice_to_vec(bytes) })
    }

    /// Lend the key bytes as a read-only byte slice.
    pub fn as_bytes(&self) -> (r: &[u8])
        ensures
            r@ == self@,
    {
        self.bytes.as_slice()
    }
}

} // verus!
