//! STREAM ECIES using the X25519 elliptic-curve Diffie-Hellman function of
//! RFC 7748 and the HMAC-based extract-and-expand key-derivation function
//! (HKDF) of RFC 5869, over a misuse-resistant AEAD (AES-SIV or
//! AES-PMAC-SIV). The STREAM construction turns the single derived key
//! into an authenticated sequence of ciphertext segments with positional
//! and terminal binding: each segment's AEAD nonce is the fixed 8-byte
//! zero prefix, a 32-bit big-endian segment counter, and a terminal-flag
//! byte.

use vstd::prelude::*;
use crate::error::Error;
use crate::kdf::{derive_key, derived_key, opt_bytes_view};
use crate::keys::{basepoint, x25519, zero_bytes, PrivateKey, PublicKey};
use crate::siv::{
    cmac_siv_key, cmac_siv_new, cmac_siv_open, cmac_siv_open_segment, cmac_siv_seal,
    cmac_siv_seal_segment, pmac_siv_key, pmac_siv_new, pmac_siv_open, pmac_siv_open_segment,
    pmac_siv_seal, pmac_siv_seal_segment, SivCmacCipher, SivPmacCipher, AEAD_KEY_SIZE, TAG_SIZE,
};

verus! {

/// The AEAD primitive a session runs over.
#[derive(Clone, Copy, Debug, PartialEq, Eq, Structural)]
pub enum Algorithm {
    /// AES-128-SIV (CMAC-based s2v), RFC 5297.
    Aes128Siv,
    /// AES-128-PMAC-SIV.
    Aes128PmacSiv,
}

/// Length in bytes of the STREAM nonce prefix.
pub const NONCE_PREFIX_SIZE: usize = 8;

/// The keyed AEAD state of one session.
pub(crate) enum Cipher {
    Cmac(SivCmacCipher),
    Pmac(SivPmacCipher),
}

/// The big-endian bytes of a 32-bit segment counter.
pub open spec fn u32_be_bytes(x: u32) -> Seq<u8> {
    seq![
        ((x / 0x1000000) % 256) as u8,
        ((x / 0x10000) % 256) as u8,
        ((x / 0x100) % 256) as u8,
        (x % 256) as u8,
    ]
}

/// The 13-byte STREAM nonce of one segment: the 8-byte zero prefix
/// (required for interoperability; safe because every session derives a
/// fresh key), the 32-bit big-endian segment counter, and one
/// terminal-flag byte.
pub open spec fn stream_nonce(counter: u32, last: bool) -> Seq<u8> {
    zero_bytes(NONCE_PREFIX_SIZE as nat) + u32_be_bytes(counter) + seq![
        if last {
            1u8
        } else {
            0u8
        },
    ]
}

/// Distinct segment positions or terminal flags give distinct STREAM
/// nonces, so no two segments of one session are ever sealed under the
/// same AEAD nonce.
pub proof fn lemma_stream_nonce_injective(c1: u32, l1: bool, c2: u32, l2: bool)
    requires
        stream_nonce(c1, l1) == stream_nonce(c2, l2),
    ensures
        c1 == c2,
        l1 == l2,
{
    assert(stream_nonce(c1, l1)[8] == u32_be_bytes(c1)[0]);
    assert(stream_nonce(c1, l1)[9] == u32_be_bytes(c1)[1]);
    assert(stream_nonce(c1, l1)[10] == u32_be_bytes(c1)[2]);
    assert(stream_nonce(c1, l1)[11] == u32_be_bytes(c1)[3]);
    assert(stream_nonce(c1, l1)[12] == if l1 { 1u8 } else { 0u8 });
    assert((c1 / 0x1000000) % 256 == (c2 / 0x1000000) % 256);
    assert((c1 / 0x10000) % 256 == (c2 / 0x10000) % 256);
    assert((c1 / 0x100) % 256 == (c2 / 0x100) % 256);
    assert(c1 % 256 == c2 % 256);
    assert(((c1 / 0x1000000) % 256 == (c2 / 0x1000000) % 256 && (c1 / 0x10000) % 256 == (c2
        / 0x10000) % 256 && (c1 / 0x100) % 256 == (c2 / 0x100) % 256 && c1 % 256 == c2 % 256)
        ==> c1 == c2) by (bit_vector);
}

/// The nonce of a segment, built in executable code.
fn stream_nonce_bytes(counter: u32, last: bool) -> (r: Vec<u8>)
    ensures
        r@ == stream_nonce(counter, last),
{
    let mut v: Vec<u8> = Vec::new();
    let mut i: usize = 0;
    while i < NONCE_PREFIX_SIZE
        invariant
            v@.len() == i,
            i <= NONCE_PREFIX_SIZE,
            forall|j: int| 0 <= j < v@.len() ==> v@[j] == 0u8,
        decreases NONCE_PREFIX_SIZE - i,
    {
        v.push(0u8);
        i = i + 1;
    }
    v.push(((counter / 0x1000000) % 256) as u8);
    v.push(((counter / 0x10000) % 256) as u8);
    v.push(((counter / 0x100) % 256) as u8);
    v.push((counter % 256) as u8);
    v.push(if last { 1u8 } else { 0u8 });
    proof {
        assert(v@ =~= stream_nonce(counter, last));
    }
    v
}

/// The ciphertext of one STREAM segment: AEAD sealing under the session
/// key, with the segment's nonce and the caller's associated data.
pub open spec fn seal_segment_spec(
    alg: Algorithm,
    key: Seq<u8>,
    counter: u32,
    last: bool,
    ad: Seq<u8>,
    pt: Seq<u8>,
) -> Seq<u8> {
    match alg {
        Algorithm::Aes128Siv => cmac_siv_seal(key, ad, stream_nonce(counter, last), pt),
        Algorithm::Aes128PmacSiv => pmac_siv_seal(key, ad, stream_nonce(counter, last), pt),
    }
}

/// What opening one STREAM segment yields: the plaintext exactly when the
/// ciphertext is authentic for this key, position, terminality and
/// associated data, and nothing otherwise.
pub open spec fn open_segment_spec(
    alg: Algorithm,
    key: Seq<u8>,
    counter: u32,
    last: bool,
    ad: Seq<u8>,
    ct: Seq<u8>,
) -> Option<Seq<u8>> {
    match alg {
        Algorithm::Aes128Siv => cmac_siv_open(key, ad, stream_nonce(counter, last), ct),
        Algorithm::Aes128PmacSiv => pmac_siv_open(key, ad, stream_nonce(counter, last), ct),
    }
}

/// The symmetric session key of an XSTREAM session: `derive_key` of an
/// X25519 private/public pair and the optional salt, at the AEAD key size.
/// The sealing side derives it from the ephemeral private key and the
/// recipient's public key; the opening side from the recipient's private
/// key and the ephemeral public key. X25519 makes the two equal.
pub open spec fn session_key(private: Seq<u8>, public: Seq<u8>, salt: Option<Seq<u8>>) -> Seq<u8> {
    derived_key(private, public, salt, AEAD_KEY_SIZE as nat)
}

impl Cipher {
    /// The algorithm this cipher implements.
    pub(crate) closed spec fn alg(&self) -> Algorithm {
        match self {
            Cipher::Cmac(_) => Algorithm::Aes128Siv,
            Cipher::Pmac(_) => Algorithm::Aes128PmacSiv,
        }
    }

    /// The key this cipher was constructed with.
    pub(crate) closed spec fn key(&self) -> Seq<u8> {
        match self {
            Cipher::Cmac(c) => cmac_siv_key(*c),
            Cipher::Pmac(c) => pmac_siv_key(*c),
        }
    }
}

/// Elliptic Curve Integrated Encryption Scheme (ECIES) encryptor based on
/// the X25519 Diffie-Hellman function and HKDF-SHA-256, over AES-SIV or
/// AES-PMAC-SIV. Uses the STREAM construction for incremental encryption:
/// the state machine is `Ready(counter)` with `seal_next` stepping to
/// `Ready(counter + 1)`, and `seal_last` consuming the value, so no
/// segment can follow the terminal one.
pub struct X25519HkdfEncryptor {
    cipher: Cipher,
    counter: u32,
}

impl X25519HkdfEncryptor {
    /// The AEAD algorithm of this session.
    pub closed spec fn alg(&self) -> Algorithm {
        self.cipher.alg()
    }

    /// The symmetric session key (ghost only; the key bytes themselves are
    /// wiped during construction).
    pub closed spec fn key(&self) -> Seq<u8> {
        self.cipher.key()
    }

    /// How many segments have been sealed: the counter of the next one.
    pub closed spec fn pos(&self) -> u32 {
        self.counter
    }

    /// Create an Encryptor that seals a stream of segments under the
    /// recipient's `public_key`. `ephemeral_private` is this session's
    /// fresh ephemeral scalar (drawn by the caller, for instance with
    /// `PrivateKey::generate`); the returned public key is its scalar-base
    /// multiple and must be transmitted to the recipient alongside the
    /// ciphertext stream. The derived symmetric key is wiped before the
    /// function returns.
    pub fn new(
        algorithm: Algorithm,
        ephemeral_private: &PrivateKey,
        public_key: &PublicKey,
        salt: Option<&[u8]>,
    ) -> (r: (X25519HkdfEncryptor, PublicKey))
        requires
            ephemeral_private.wf(),
            public_key.wf(),
        ensures
            r.0.alg() == algorithm,
            r.0.key() == session_key(ephemeral_private@, public_key@, opt_bytes_view(salt)),
            r.0.pos() == 0,
            r.1@ == x25519(ephemeral_private@, basepoint()),
            r.1.wf(),
            forall|recipient_private: Seq<u8>|
                public_key@ == x25519(recipient_private, basepoint()) ==> r.0.key()
                    == session_key(recipient_private, r.1@, opt_bytes_view(salt)),
    {
        let ephemeral_public = ephemeral_private.public_key();
        let mut symmetric_key = derive_key(
            ephemeral_private.as_bytes(),
            public_key.as_bytes(),
            salt,
            AEAD_KEY_SIZE,
        );
        let cipher = match algorithm {
            Algorithm::Aes128Siv => Cipher::Cmac(cmac_siv_new(symmetric_key.as_slice())),
            Algorithm::Aes128PmacSiv => Cipher::Pmac(pmac_siv_new(symmetric_key.as_slice())),
        };
        crate::keys::wipe(&mut symmetric_key);
        (X25519HkdfEncryptor { cipher, counter: 0 }, ephemeral_public)
    }

    /// Seal the next (non-terminal) segment, allocating and returning the
    /// ciphertext: the synthetic IV followed by the encrypted plaintext.
    /// The associated data and the segment's position are bound into the
    /// ciphertext, and the counter advances by one.
    pub fn seal_next(&mut self, ad: &[u8], plaintext: &[u8]) -> (r: Vec<u8>)
        requires
            old(self).pos() < u32::MAX,
        ensures
            final(self).alg() == old(self).alg(),
            final(self).key() == old(self).key(),
            final(self).pos() == old(self).pos() + 1,
            r@ == seal_segment_spec(
                old(self).alg(),
                old(self).key(),
                old(self).pos(),
                false,
                ad@,
                plaintext@,
            ),
            r@.len() == plaintext@.len() + TAG_SIZE,
            open_segment_spec(
                old(self).alg(),
                old(self).key(),
                old(self).pos(),
                false,
                ad@,
                r@,
            ) == Some(plaintext@),
    {
        let nonce = stream_nonce_bytes(self.counter, false);
        let ciphertext = match &mut self.cipher {
            Cipher::Cmac(c) => cmac_siv_seal_segment(c, ad, nonce.as_slice(), plaintext),
            Cipher::Pmac(c) => pmac_siv_seal_segment(c, ad, nonce.as_slice(), plaintext),
        };
        self.counter = self.counter + 1;
        ciphertext
    }

    /// Seal the terminal segment, allocating and returning the ciphertext.
    /// The terminal flag is set in the nonce, and the Encryptor is
    /// consumed: no further segment can ever be sealed in this session.
    pub fn seal_last(self, ad: &[u8], plaintext: &[u8]) -> (r: Vec<u8>)
        ensures
            r@ == seal_segment_spec(self.alg(), self.key(), self.pos(), true, ad@, plaintext@),
            r@.len() == plaintext@.len() + TAG_SIZE,
            open_segment_spec(self.alg(), self.key(), self.pos(), true, ad@, r@) == Some(
                plaintext@,
            ),
    {
        let nonce = stream_nonce_bytes(self.counter, true);
        let mut cipher = self.cipher;
        match &mut cipher {
            Cipher::Cmac(c) => cmac_siv_seal_segment(c, ad, nonce.as_slice(), plaintext),
            Cipher::Pmac(c) => pmac_siv_seal_segment(c, ad, nonce.as_slice(), plaintext),
        }
    }

    /// Seal the next (non-terminal) segment in a caller-owned buffer: the
    /// buffer holds the plaintext on entry and the ciphertext on return.
    pub fn seal_next_in_place(&mut self, ad: &[u8], buffer: &mut Vec<u8>)
        requires
            old(self).pos() < u32::MAX,
        ensures
            final(self).alg() == old(self).alg(),
            final(self).key() == old(self).key(),
            final(self).pos() == old(self).pos() + 1,
            final(buffer)@ == seal_segment_spec(
                old(self).alg(),
                old(self).key(),
                old(self).pos(),
                false,
                ad@,
                old(buffer)@,
            ),
            final(buffer)@.len() == old(buffer)@.len() + TAG_SIZE,
    {
        let ciphertext = self.seal_next(ad, buffer.as_slice());
        *buffer = ciphertext;
    }

    /// Seal the terminal segment in a caller-owned buffer, consuming the
    /// Encryptor; the buffer holds the plaintext on entry and the
    /// ciphertext on return.
    pub fn seal_last_in_place(self, ad: &[u8], buffer: &mut Vec<u8>)
        ensures
            final(buffer)@ == seal_segment_spec(
                self.alg(),
                self.key(),
                self.pos(),
                true,
                ad@,
                old(buffer)@,
            ),
            final(buffer)@.len() == old(buffer)@.len() + TAG_SIZE,
    {
        let ciphertext = self.seal_last(ad, buffer.as_slice());
        *buffer = ciphertext;
    }
}

/// Elliptic Curve Integrated Encryption Scheme (ECIES) decryptor based on
/// the X25519 Diffie-Hellman function and HKDF-SHA-256, over AES-SIV or
/// AES-PMAC-SIV. Mirrors `X25519HkdfEncryptor`: `open_next` advances the
/// segment counter, `open_last` consumes the value, and after any
/// authentication failure the state is unusable — every later operation
/// fails, because the correct counter value is no longer known.
pub struct X25519HkdfDecryptor {
    cipher: Cipher,
    counter: u32,
    failed: bool,
}

impl X25519HkdfDecryptor {
    /// The AEAD algorithm of this session.
    pub closed spec fn alg(&self) -> Algorithm {
        self.cipher.alg()
    }

    /// The symmetric session key (ghost only).
    pub closed spec fn key(&self) -> Seq<u8> {
        self.cipher.key()
    }

    /// How many segments have been opened: the counter of the next one.
    pub closed spec fn pos(&self) -> u32 {
        self.counter
    }

    /// Whether an earlier operation failed, making the state unusable.
    pub closed spec fn failed(&self) -> bool {
        self.failed
    }

    /// Create a Decryptor that opens a stream of segments sealed under the
    /// public key corresponding to `private_key`. `ephemeral_key` is the
    /// ephemeral public key the sealing side emitted; the salt must equal
    /// the sealing side's. The derived symmetric key is wiped before the
    /// function returns.
    pub fn new(
        algorithm: Algorithm,
        private_key: &PrivateKey,
        ephemeral_key: &PublicKey,
        salt: Option<&[u8]>,
    ) -> (r: X25519HkdfDecryptor)
        requires
            private_key.wf(),
            ephemeral_key.wf(),
        ensures
            r.alg() == algorithm,
            r.key() == session_key(private_key@, ephemeral_key@, opt_bytes_view(salt)),
            r.pos() == 0,
            !r.failed(),
            forall|ephemeral_private: Seq<u8>|
                ephemeral_key@ == x25519(ephemeral_private, basepoint()) ==> r.key()
                    == session_key(
                    ephemeral_private,
                    x25519(private_key@, basepoint()),
                    opt_bytes_view(salt),
                ),
    {
        let mut symmetric_key = derive_key(
            private_key.as_bytes(),
            ephemeral_key.as_bytes(),
            salt,
            AEAD_KEY_SIZE,
        );
        let cipher = match algorithm {
            Algorithm::Aes128Siv => Cipher::Cmac(cmac_siv_new(symmetric_key.as_slice())),
            Algorithm::Aes128PmacSiv => Cipher::Pmac(pmac_siv_new(symmetric_key.as_slice())),
        };
        crate::keys::wipe(&mut symmetric_key);
        X25519HkdfDecryptor { cipher, counter: 0, failed: false }
    }

    /// Open the next (non-terminal) segment, allocating and returning the
    /// plaintext. Succeeds exactly when no earlier operation failed and
    /// the ciphertext is authentic for this key, position, non-terminal
    /// polarity and associated data; on success the counter advances by
    /// one, on failure the state becomes unusable.
    pub fn open_next(&mut self, ad: &[u8], ciphertext: &[u8]) -> (r: Result<Vec<u8>, Error>)
        requires
            old(self).pos() < u32::MAX,
        ensures
            final(self).alg() == old(self).alg(),
            final(self).key() == old(self).key(),
            match r {
                Ok(pt) => {
                    &&& !old(self).failed()
                    &&& Some(pt@) == open_segment_spec(
                        old(self).alg(),
                        old(self).key(),
                        old(self).pos(),
                        false,
                        ad@,
                        ciphertext@,
                    )
                    &&& pt@.len() + TAG_SIZE == ciphertext@.len()
                    &&& !final(self).failed()
                    &&& final(self).pos() == old(self).pos() + 1
                },
                Err(_) => {
                    &&& old(self).failed() || open_segment_spec(
                        old(self).alg(),
                        old(self).key(),
                        old(self).pos(),
                        false,
                        ad@,
                        ciphertext@,
                    ) is None
                    &&& final(self).failed()
                    &&& final(self).pos() == old(self).pos()
                },
            },
    {
        if self.failed {
            return Err(Error);
        }
        let nonce = stream_nonce_bytes(self.counter, false);
        let outcome = match &mut self.cipher {
            Cipher::Cmac(c) => cmac_siv_open_segment(c, ad, nonce.as_slice(), ciphertext),
            Cipher::Pmac(c) => pmac_siv_open_segment(c, ad, nonce.as_slice(), ciphertext),
        };
        match outcome {
            Ok(plaintext) => {
                self.counter = self.counter + 1;
                Ok(plaintext)
            },
            Err(e) => {
                self.failed = true;
                Err(e)
            },
        }
    }

    /// Open the terminal segment, consuming the Decryptor. Succeeds
    /// exactly when no earlier operation failed and the ciphertext is
    /// authentic for this key, position, terminal polarity and associated
    /// data.
    pub fn open_last(self, ad: &[u8], ciphertext: &[u8]) -> (r: Result<Vec<u8>, Error>)
        ensures
            match r {
                Ok(pt) => {
                    &&& !self.failed()
                    &&& Some(pt@) == open_segment_spec(
                        self.alg(),
                        self.key(),
                        self.pos(),
                        true,
                        ad@,
                        ciphertext@,
                    )
                    &&& pt@.len() + TAG_SIZE == ciphertext@.len()
                },
                Err(_) => self.failed() || open_segment_spec(
                    self.alg(),
                    self.key(),
                    self.pos(),
                    true,
                    ad@,
                    ciphertext@,
                ) is None,
            },
    {
        if self.failed {
            return Err(Error);
        }
        let nonce = stream_nonce_bytes(self.counter, true);
        let mut cipher = self.cipher;
        match &mut cipher {
            Cipher::Cmac(c) => cmac_siv_open_segment(c, ad, nonce.as_slice(), ciphertext),
            Cipher::Pmac(c) => pmac_siv_open_segment(c, ad, nonce.as_slice(), ciphertext),
        }
    }

    /// Open the next (non-terminal) segment in a caller-owned buffer: the
    /// buffer holds the ciphertext on entry and, on success, the plaintext
    /// on return. On failure the buffer is left exactly as it was — no
    /// unauthenticated prefix becomes visible — and the state becomes
    /// unusable.
    pub fn open_next_in_place(&mut self, ad: &[u8], buffer: &mut Vec<u8>) -> (r: Result<(), Error>)
        requires
            old(self).pos() < u32::MAX,
        ensures
            final(self).alg() == old(self).alg(),
            final(self).key() == old(self).key(),
            match r {
                Ok(_) => {
                    &&& !old(self).failed()
                    &&& Some(final(buffer)@) == open_segment_spec(
                        old(self).alg(),
                        old(self).key(),
                        old(self).pos(),
                        false,
                        ad@,
                        old(buffer)@,
                    )
                    &&& !final(self).failed()
                    &&& final(self).pos() == old(self).pos() + 1
                },
                Err(_) => {
                    &&& old(self).failed() || open_segment_spec(
                        old(self).alg(),
                        old(self).key(),
                        old(self).pos(),
                        false,
                        ad@,
                        old(buffer)@,
                    ) is None
                    &&& final(buffer)@ == old(buffer)@
                    &&& final(self).failed()
                    &&& final(self).pos() == old(self).pos()
                },
            },
    {
        match self.open_next(ad, buffer.as_slice()) {
            Ok(plaintext) => {
                *buffer = plaintext;
                Ok(())
            },
            Err(e) => Err(e),
        }
    }

    /// Open the terminal segment in a caller-owned buffer, consuming the
    /// Decryptor; on success the buffer holds the plaintext, on failure it
    /// is left exactly as it was.
    pub fn open_last_in_place(self, ad: &[u8], buffer: &mut Vec<u8>) -> (r: Result<(), Error>)
        ensures
            match r {
                Ok(_) => {
                    &&& !self.failed()
                    &&& Some(final(buffer)@) == open_segment_spec(
                        self.alg(),
                        self.key(),
                        self.pos(),
                        true,
                        ad@,
                        old(buffer)@,
                    )
                },
                Err(_) => {
                    &&& self.failed() || open_segment_spec(
                        self.alg(),
                        self.key(),
                        self.pos(),
                        true,
                        ad@,
                        old(buffer)@,
                    ) is None
                    &&& final(buffer)@ == old(buffer)@
                },
            },
    {
        match self.open_last(ad, buffer.as_slice()) {
            Ok(plaintext) => {
                *buffer = plaintext;
                Ok(())
            },
            Err(e) => Err(e),
        }
    }
}

} // verus!
