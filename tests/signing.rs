use block_cryptography::signing::{
    generate_keys, sign_data, verify_data, KeyGenError, KeyPair, Signature, PUBLIC_KEY_LEN,
    SIGNATURE_LEN,
};

#[test]
fn correct_signing_test() {
    let tests: [&str; 3] = ["test", "hello world", "hashing is fun"];

    for test in &tests {
        let (keys, _document): (KeyPair, Vec<u8>) = generate_keys().unwrap();

        let sig = sign_data(&keys, test.as_bytes());
        match verify_data(keys.public_key().as_ref(), test.as_bytes(), sig) {
            false => {
                panic!();
            }
            true => {}
        };
    }
}

#[test]
fn incorrect_signing_test() {
    let (keys, _document): (KeyPair, Vec<u8>) = generate_keys().unwrap();
    let sig = sign_data(&keys, "test".as_bytes());
    let (keys, _document) = generate_keys().unwrap();

    match verify_data(keys.public_key().as_ref(), "test".as_bytes(), sig) {
        false => {}
        _ => {
            panic!();
        }
    };
}

#[test]
fn key_and_signature_lengths() {
    let (keys, _document) = generate_keys().unwrap();
    assert_eq!(keys.public_key().len(), PUBLIC_KEY_LEN);
    let sig = sign_data(&keys, b"");
    assert_eq!(sig.as_bytes().len(), SIGNATURE_LEN);
}

#[test]
fn signing_is_deterministic() {
    let (keys, _document) = generate_keys().unwrap();
    let a = sign_data(&keys, b"hello world");
    let b = sign_data(&keys, b"hello world");
    assert_eq!(a.as_bytes(), b.as_bytes());
}

#[test]
fn flipped_message_bit_is_rejected() {
    let (keys, _document) = generate_keys().unwrap();
    let message = b"hashing is fun".to_vec();
    for i in 0..message.len() * 8 {
        let sig = sign_data(&keys, &message);
        let mut tampered = message.clone();
        tampered[i / 8] ^= 1 << (i % 8);
        assert!(!verify_data(&keys.public_key(), &tampered, sig));
    }
}

#[test]
fn flipped_signature_bit_is_rejected() {
    let (keys, _document) = generate_keys().unwrap();
    let message = b"test";
    let original = sign_data(&keys, message).as_bytes().to_vec();
    for i in 0..original.len() * 8 {
        let mut tampered = original.clone();
        tampered[i / 8] ^= 1 << (i % 8);
        let sig = Signature::from_bytes(tampered);
        assert!(!verify_data(&keys.public_key(), message, sig));
    }
    assert!(verify_data(&keys.public_key(), message, Signature::from_bytes(original)));
}

#[test]
fn truncated_or_extended_buffers_are_rejected() {
    let (keys, _document) = generate_keys().unwrap();
    let message = b"test";
    let sig = sign_data(&keys, message).as_bytes().to_vec();
    let public_key = keys.public_key();

    let short_sig = sig[..SIGNATURE_LEN - 1].to_vec();
    assert!(!verify_data(&public_key, message, Signature::from_bytes(short_sig)));
    let mut long_sig = sig.clone();
    long_sig.push(0);
    assert!(!verify_data(&public_key, message, Signature::from_bytes(long_sig)));
    assert!(!verify_data(&public_key[..PUBLIC_KEY_LEN - 1], message, Signature::from_bytes(sig.clone())));
    let mut long_key = public_key.clone();
    long_key.push(0);
    assert!(!verify_data(&long_key, message, Signature::from_bytes(sig.clone())));
    assert!(!verify_data(&[], message, Signature::from_bytes(Vec::new())));
}

#[test]
fn generation_error_kind() {
    let err = KeyGenError::RandomnessUnavailable;
    assert_eq!(err, KeyGenError::RandomnessUnavailable);
}
