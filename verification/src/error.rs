//! The XSTREAM error type.

use vstd::prelude::*;

verus! {

/// An opaque error, used for every XSTREAM failure. It is raised only by
/// the decryption operations and signals that a ciphertext segment failed
/// authentication, arrived out of order, or used the wrong terminal
/// polarity. The cases are deliberately not distinguished: separate error
/// kinds would leak oracle bits to an attacker.
#[derive(Debug, Clone, Copy, PartialEq, Eq, Structural)]
pub struct Error;

/// Failure of key construction: the byte slice handed to `PrivateKey::new`
/// or `PublicKey::new` was not exactly the X25519 key size. Kept apart
/// from `Error` so that the decryption path keeps its single opaque kind.
#[derive(Debug, Clone, Copy, PartialEq, Eq, Structural)]
pub struct InvalidKeyLength;

} // verus!
