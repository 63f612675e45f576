//! The AEAD collaborators: AES-CMAC-SIV and AES-PMAC-SIV (RFC 5297) from
//! the `aes_siv` crate. Every call passes exactly two header items, the
//! caller's associated data followed by the segment nonce, so the nonce is
//! the last header as RFC 5297 prescribes.

use vstd::prelude::*;
use crate::error::Error;
use aes_siv::KeyInit;

verus! {

/// Key size in bytes of AES-128-SIV and AES-128-PMAC-SIV: two AES-128
/// keys, one for the MAC and one for the CTR encryption.
pub const AEAD_KEY_SIZE: usize = 32;

/// Length in bytes of the synthetic initialization vector that sealing
/// prepends to each ciphertext segment.
pub const TAG_SIZE: usize = 16;

/// An AES-CMAC-SIV cipher keyed for one session. The `aes_siv` state is
/// held behind this opaque struct; its abstract content is the key it was
/// built with, named by `cmac_siv_key`.
#[verifier::external_body]
pub(crate) struct SivCmacCipher {
    inner: aes_siv::siv::Aes128Siv,
}

/// An AES-PMAC-SIV cipher keyed for one session; as `SivCmacCipher`.
#[verifier::external_body]
pub(crate) struct SivPmacCipher {
    inner: aes_siv::siv::Aes128PmacSiv,
}

/// The key a `SivCmacCipher` was constructed with.
pub uninterp spec fn cmac_siv_key(c: SivCmacCipher) -> Seq<u8>;

/// The key a `SivPmacCipher` was constructed with.
pub uninterp spec fn pmac_siv_key(c: SivPmacCipher) -> Seq<u8>;

/// What AES-CMAC-SIV sealing returns for a key, associated data, nonce and
/// plaintext: the 16-byte synthetic IV followed by the encrypted
/// plaintext. A pure function of its arguments.
pub uninterp spec fn cmac_siv_seal(key: Seq<u8>, ad: Seq<u8>, nonce: Seq<u8>, pt: Seq<u8>) -> Seq<u8>;

/// What AES-CMAC-SIV opening returns: `Some(pt)` exactly when the
/// ciphertext is authentic for this key, associated data and nonce, that
/// is, when it equals what sealing `pt` produces; `None` otherwise.
pub uninterp spec fn cmac_siv_open(key: Seq<u8>, ad: Seq<u8>, nonce: Seq<u8>, ct: Seq<u8>) -> Option<
    Seq<u8>,
>;

/// What AES-PMAC-SIV sealing returns; as `cmac_siv_seal`.
pub uninterp spec fn pmac_siv_seal(key: Seq<u8>, ad: Seq<u8>, nonce: Seq<u8>, pt: Seq<u8>) -> Seq<u8>;

/// What AES-PMAC-SIV opening returns; as `cmac_siv_open`.
pub uninterp spec fn pmac_siv_open(key: Seq<u8>, ad: Seq<u8>, nonce: Seq<u8>, ct: Seq<u8>) -> Option<
    Seq<u8>,
>;

/// Relies on `aes_siv::siv::Aes128Siv::new_from_slice`: keys the cipher
/// with the 32 given bytes (it fails only on a wrong-length key, which the
/// `requires` rules out).
#[verifier::external_body]
pub(crate) fn cmac_siv_new(key: &[u8]) -> (c: SivCmacCipher)
    requires
        key@.len() == AEAD_KEY_SIZE,
    ensures
        cmac_siv_key(c) == key@,
{
    SivCmacCipher {
        inner: aes_siv::siv::Aes128Siv::new_from_slice(key).expect("the key is 32 bytes"),
    }
}

/// Relies on `aes_siv::siv::Aes128PmacSiv::new_from_slice`; as
/// `cmac_siv_new`.
#[verifier::external_body]
pub(crate) fn pmac_siv_new(key: &[u8]) -> (c: SivPmacCipher)
    requires
        key@.len() == AEAD_KEY_SIZE,
    ensures
        pmac_siv_key(c) == key@,
{
    SivPmacCipher {
        inner: aes_siv::siv::Aes128PmacSiv::new_from_slice(key).expect("the key is 32 bytes"),
    }
}

/// Relies on `aes_siv::siv::Siv::encrypt` with the header items
/// `[ad, nonce]`: deterministic AES-CMAC-SIV sealing, which with two
/// header items (far below the 126 the crate allows) cannot fail. The
/// result is the 16-byte synthetic IV followed by the encrypted plaintext;
/// it opens back to the plaintext under the same key and headers, and
/// depends on the key, headers and plaintext alone. The cipher keeps its
/// key; the `&mut` is only scratch state inside the MAC.
#[verifier::external_body]
pub(crate) fn cmac_siv_seal_segment(c: &mut SivCmacCipher, ad: &[u8], nonce: &[u8], pt: &[u8]) -> (r:
    Vec<u8>)
    ensures
        cmac_siv_key(*final(c)) == cmac_siv_key(*old(c)),
        r@ == cmac_siv_seal(cmac_siv_key(*old(c)), ad@, nonce@, pt@),
        r@.len() == pt@.len() + TAG_SIZE,
        cmac_siv_open(cmac_siv_key(*old(c)), ad@, nonce@, r@) == Some(pt@),
{
    let headers: [&[u8]; 2] = [ad, nonce];
    c.inner.encrypt(&headers, pt).expect("sealing with two header items cannot fail")
}

/// Relies on `aes_siv::siv::Siv::encrypt` for AES-PMAC-SIV; as
/// `cmac_siv_seal_segment`.
#[verifier::external_body]
pub(crate) fn pmac_siv_seal_segment(c: &mut SivPmacCipher, ad: &[u8], nonce: &[u8], pt: &[u8]) -> (r:
    Vec<u8>)
    ensures
        pmac_siv_key(*final(c)) == pmac_siv_key(*old(c)),
        r@ == pmac_siv_seal(pmac_siv_key(*old(c)), ad@, nonce@, pt@),
        r@.len() == pt@.len() + TAG_SIZE,
        pmac_siv_open(pmac_siv_key(*old(c)), ad@, nonce@, r@) == Some(pt@),
{
    let headers: [&[u8]; 2] = [ad, nonce];
    c.inner.encrypt(&headers, pt).expect("sealing with two header items cannot fail")
}

/// Relies on `aes_siv::siv::Siv::decrypt` with the header items
/// `[ad, nonce]`: it recomputes the synthetic IV from the decrypted
/// plaintext and the headers and compares, so it returns a plaintext
/// exactly when the ciphertext is authentic for this key and these
/// headers — that is, equals what sealing that plaintext produces — and
/// fails otherwise. Decryption is deterministic in its arguments.
#[verifier::external_body]
pub(crate) fn cmac_siv_open_segment(c: &mut SivCmacCipher, ad: &[u8], nonce: &[u8], ct: &[u8]) -> (r:
    Result<Vec<u8>, Error>)
    ensures
        cmac_siv_key(*final(c)) == cmac_siv_key(*old(c)),
        match r {
            Ok(pt) => {
                &&& cmac_siv_open(cmac_siv_key(*old(c)), ad@, nonce@, ct@) == Some(pt@)
                &&& ct@ == cmac_siv_seal(cmac_siv_key(*old(c)), ad@, nonce@, pt@)
                &&& pt@.len() + TAG_SIZE == ct@.len()
            },
            Err(_) => cmac_siv_open(cmac_siv_key(*old(c)), ad@, nonce@, ct@) is None,
        },
{
    let headers: [&[u8]; 2] = [ad, nonce];
    match c.inner.decrypt(&headers, ct) {
        Ok(pt) => Ok(pt),
        Err(_) => Err(Error),
    }
}

/// Relies on `aes_siv::siv::Siv::decrypt` for AES-PMAC-SIV; as
/// `cmac_siv_open_segment`.
#[verifier::external_body]
pub(crate) fn pmac_siv_open_segment(c: &mut SivPmacCipher, ad: &[u8], nonce: &[u8], ct: &[u8]) -> (r:
    Result<Vec<u8>, Error>)
    ensures
        pmac_siv_key(*final(c)) == pmac_siv_key(*old(c)),
        match r {
            Ok(pt) => {
                &&& pmac_siv_open(pmac_siv_key(*old(c)), ad@, nonce@, ct@) == Some(pt@)
                &&& ct@ == pmac_siv_seal(pmac_siv_key(*old(c)), ad@, nonce@, pt@)
                &&& pt@.len() + TAG_SIZE == ct@.len()
            },
            Err(_) => pmac_siv_open(pmac_siv_key(*old(c)), ad@, nonce@, ct@) is None,
        },
{
    let headers: [&[u8]; 2] = [ad, nonce];
    match c.inner.decrypt(&headers, ct) {
        Ok(pt) => Ok(pt),
        Err(_) => Err(Error),
    }
}

} // verus!
