use revaultd::identity::{bytes_all_zero, noise_key_from_bytes, KeyError, NoisePrivKey};

#[test]
fn key_from_bytes_checks_length() {
    assert_eq!(
        noise_key_from_bytes(vec![1u8; 31]).expect_err("31 bytes"),
        KeyError::InvalidKeySize
    );
    assert_eq!(
        noise_key_from_bytes(vec![1u8; 33]).expect_err("33 bytes"),
        KeyError::InvalidKeySize
    );
    assert_eq!(
        noise_key_from_bytes(Vec::new()).expect_err("no bytes"),
        KeyError::InvalidKeySize
    );
    let k = noise_key_from_bytes(vec![0xa5u8; 32]).expect("A 32-byte key");
    assert_eq!(k.0, vec![0xa5u8; 32]);
}

#[test]
fn all_zero_detection() {
    assert!(bytes_all_zero(&vec![0u8; 32]));
    assert!(bytes_all_zero(&Vec::new()));
    let mut almost = vec![0u8; 32];
    almost[31] = 1;
    assert!(!bytes_all_zero(&almost));
}

#[test]
fn public_key_is_a_function_of_the_secret() {
    let a = NoisePrivKey(vec![7u8; 32]);
    let b = NoisePrivKey(vec![7u8; 32]);
    let c = NoisePrivKey(vec![8u8; 32]);
    let pa = a.public_key();
    let pb = b.public_key();
    let pc = c.public_key();
    assert_eq!(pa.0.len(), 32);
    // Reloading the same secret yields the same public key; the derivation
    // is no identity on the bytes.
    assert_eq!(pa.0, pb.0);
    assert_ne!(pa.0, pc.0);
    assert_ne!(pa.0, a.0);
}

#[test]
fn key_error_messages() {
    assert_eq!(KeyError::ReadingKey.message(), "Error reading Noise key");
    assert_eq!(KeyError::WritingKey.message(), "Error writing Noise key");
    assert_eq!(KeyError::InvalidKeySize.message(), "Invalid Noise key length");
}
