//! The behavioural properties of the construction: round trips,
//! determinism, key separation, and terminal, positional and
//! associated-data binding.

use xstream::{Algorithm, Error, PrivateKey, PublicKey, X25519HkdfDecryptor, X25519HkdfEncryptor};

const RECIPIENT_A: [u8; 32] = [0x11; 32];
const RECIPIENT_B: [u8; 32] = [0x22; 32];
const EPHEMERAL: [u8; 32] = [0x33; 32];

fn session(
    alg: Algorithm,
    recipient_seckey: &[u8],
    salt: Option<&[u8]>,
) -> (X25519HkdfEncryptor, PublicKey, PrivateKey) {
    let recipient = PrivateKey::new(recipient_seckey).unwrap();
    let recipient_pub = recipient.public_key();
    let ephemeral = PrivateKey::new(&EPHEMERAL).unwrap();
    let (encryptor, ephemeral_pub) = X25519HkdfEncryptor::new(alg, &ephemeral, &recipient_pub, salt);
    (encryptor, ephemeral_pub, recipient)
}

fn decryptor_for(
    alg: Algorithm,
    recipient: &PrivateKey,
    ephemeral_pub: &PublicKey,
    salt: Option<&[u8]>,
) -> X25519HkdfDecryptor {
    X25519HkdfDecryptor::new(alg, recipient, ephemeral_pub, salt)
}

#[test]
fn round_trip_multiple_segments() {
    for alg in [Algorithm::Aes128Siv, Algorithm::Aes128PmacSiv] {
        let (mut enc, eph_pub, recipient) = session(alg, &RECIPIENT_A, None);
        let ct0 = enc.seal_next(b"ad zero", b"first");
        let ct1 = enc.seal_next(b"ad one", b"second");
        let ct2 = enc.seal_last(b"ad two", b"third and last");

        let mut dec = decryptor_for(alg, &recipient, &eph_pub, None);
        assert_eq!(dec.open_next(b"ad zero", &ct0).unwrap(), b"first");
        assert_eq!(dec.open_next(b"ad one", &ct1).unwrap(), b"second");
        assert_eq!(dec.open_last(b"ad two", &ct2).unwrap(), b"third and last");
    }
}

#[test]
fn determinism_under_fixed_randomness() {
    let salt = [0xabu8; 8];
    for alg in [Algorithm::Aes128Siv, Algorithm::Aes128PmacSiv] {
        let (mut enc1, pub1, _) = session(alg, &RECIPIENT_A, Some(&salt));
        let (mut enc2, pub2, _) = session(alg, &RECIPIENT_A, Some(&salt));
        assert_eq!(pub1.as_bytes(), pub2.as_bytes());
        assert_eq!(
            enc1.seal_next(b"ad", b"payload"),
            enc2.seal_next(b"ad", b"payload"),
        );
        assert_eq!(enc1.seal_last(b"ad", b"end"), enc2.seal_last(b"ad", b"end"));
    }
}

#[test]
fn key_separation_distinct_recipients() {
    let (mut enc_a, _, _) = session(Algorithm::Aes128Siv, &RECIPIENT_A, None);
    let (mut enc_b, _, _) = session(Algorithm::Aes128Siv, &RECIPIENT_B, None);
    assert_ne!(
        enc_a.seal_next(b"ad", b"identical plaintext"),
        enc_b.seal_next(b"ad", b"identical plaintext"),
    );
}

#[test]
fn key_separation_distinct_salts() {
    let (mut enc_a, _, _) = session(Algorithm::Aes128Siv, &RECIPIENT_A, Some(b"salt one"));
    let (mut enc_b, _, _) = session(Algorithm::Aes128Siv, &RECIPIENT_A, Some(b"salt two"));
    assert_ne!(
        enc_a.seal_next(b"ad", b"identical plaintext"),
        enc_b.seal_next(b"ad", b"identical plaintext"),
    );
}

#[test]
fn terminal_binding_next_opened_as_last() {
    let (mut enc, eph_pub, recipient) = session(Algorithm::Aes128Siv, &RECIPIENT_A, None);
    let ct0 = enc.seal_next(b"ad", b"not terminal");
    let dec = decryptor_for(Algorithm::Aes128Siv, &recipient, &eph_pub, None);
    assert_eq!(dec.open_last(b"ad", &ct0), Err(Error));
}

#[test]
fn terminal_binding_last_opened_as_next() {
    let (enc, eph_pub, recipient) = session(Algorithm::Aes128Siv, &RECIPIENT_A, None);
    let ct0 = enc.seal_last(b"ad", b"terminal");
    let mut dec = decryptor_for(Algorithm::Aes128Siv, &recipient, &eph_pub, None);
    assert_eq!(dec.open_next(b"ad", &ct0), Err(Error));
}

#[test]
fn positional_binding_swapped_segments() {
    let (mut enc, eph_pub, recipient) = session(Algorithm::Aes128Siv, &RECIPIENT_A, None);
    let ct0 = enc.seal_next(b"ad", b"segment zero");
    let ct1 = enc.seal_next(b"ad", b"segment one");
    let _ct2 = enc.seal_last(b"ad", b"terminal");

    // The stream arrives with the two non-terminal segments permuted:
    // the segment sealed at position one fails at position zero...
    let mut dec = decryptor_for(Algorithm::Aes128Siv, &recipient, &eph_pub, None);
    assert_eq!(dec.open_next(b"ad", &ct1), Err(Error));

    // ...and the segment sealed at position zero fails at position one.
    let mut dec = decryptor_for(Algorithm::Aes128Siv, &recipient, &eph_pub, None);
    assert_eq!(dec.open_next(b"ad", &ct0).unwrap(), b"segment zero");
    assert_eq!(dec.open_next(b"ad", &ct0), Err(Error));
}

#[test]
fn associated_data_binding() {
    let (mut enc, eph_pub, recipient) = session(Algorithm::Aes128Siv, &RECIPIENT_A, None);
    let ct0 = enc.seal_next(b"ad", b"payload");
    let mut dec = decryptor_for(Algorithm::Aes128Siv, &recipient, &eph_pub, None);
    assert_eq!(dec.open_next(b"aD", &ct0), Err(Error));
}

#[test]
fn ciphertext_bitflip_fails() {
    let (mut enc, eph_pub, recipient) = session(Algorithm::Aes128Siv, &RECIPIENT_A, None);
    let mut ct0 = enc.seal_next(b"ad", b"payload");
    ct0[0] ^= 0x01;
    let mut dec = decryptor_for(Algorithm::Aes128Siv, &recipient, &eph_pub, None);
    assert_eq!(dec.open_next(b"ad", &ct0), Err(Error));
}

#[test]
fn decryptor_unusable_after_failure() {
    let (mut enc, eph_pub, recipient) = session(Algorithm::Aes128Siv, &RECIPIENT_A, None);
    let ct0 = enc.seal_next(b"ad", b"payload");
    let mut dec = decryptor_for(Algorithm::Aes128Siv, &recipient, &eph_pub, None);
    assert_eq!(dec.open_next(b"wrong ad", &ct0), Err(Error));
    // Even the authentic segment is refused once the state failed.
    assert_eq!(dec.open_next(b"ad", &ct0), Err(Error));
}

#[test]
fn empty_terminal_segment() {
    for alg in [Algorithm::Aes128Siv, Algorithm::Aes128PmacSiv] {
        let (enc, eph_pub, recipient) = session(alg, &RECIPIENT_A, None);
        let ct = enc.seal_last(b"", b"");
        assert_eq!(ct.len(), 16);
        let dec = decryptor_for(alg, &recipient, &eph_pub, None);
        assert_eq!(dec.open_last(b"", &ct).unwrap(), b"");
    }
}

#[test]
fn in_place_variants_match_allocating() {
    let (mut enc_a, eph_pub, recipient) = session(Algorithm::Aes128Siv, &RECIPIENT_A, None);
    let (mut enc_b, _, _) = session(Algorithm::Aes128Siv, &RECIPIENT_A, None);

    let ct0 = enc_a.seal_next(b"ad", b"first payload");
    let mut buf0 = b"first payload".to_vec();
    enc_b.seal_next_in_place(b"ad", &mut buf0);
    assert_eq!(ct0, buf0);

    let ct1 = enc_a.seal_last(b"ad", b"last payload");
    let mut buf1 = b"last payload".to_vec();
    enc_b.seal_last_in_place(b"ad", &mut buf1);
    assert_eq!(ct1, buf1);

    let mut dec = decryptor_for(Algorithm::Aes128Siv, &recipient, &eph_pub, None);
    let mut open0 = ct0.clone();
    dec.open_next_in_place(b"ad", &mut open0).unwrap();
    assert_eq!(open0, b"first payload");
    let mut open1 = ct1.clone();
    dec.open_last_in_place(b"ad", &mut open1).unwrap();
    assert_eq!(open1, b"last payload");
}

#[test]
fn in_place_open_failure_leaves_buffer() {
    let (mut enc, eph_pub, recipient) = session(Algorithm::Aes128Siv, &RECIPIENT_A, None);
    let ct0 = enc.seal_next(b"ad", b"payload");
    let mut dec = decryptor_for(Algorithm::Aes128Siv, &recipient, &eph_pub, None);
    let mut buf = ct0.clone();
    assert_eq!(dec.open_next_in_place(b"other ad", &mut buf), Err(Error));
    assert_eq!(buf, ct0);
}
