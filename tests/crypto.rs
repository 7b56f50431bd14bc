use networking_lib::{
    AesKey, CryptError, CryptLib, KeyFormat, RsaPublicKey, SignPublicKey, AES, RSA,
};

#[test]
fn crypt_lib() {
    let mut crypt_lib = CryptLib::new(2048).unwrap();

    let data = "Encrypted data!".as_bytes();
    let aad = "AAD data".as_bytes().to_vec();

    let ciphertext = crypt_lib
        .encrypt(&crypt_lib.get_public_keys().get_rsa_key(), data, aad.clone())
        .unwrap();

    let decrypted = crypt_lib.decrypt(ciphertext).unwrap();

    let (data_dec, aad_dec) = decrypted.get_components();

    assert_eq!(data, data_dec);
    assert_eq!(aad, aad_dec);
}

#[test]
fn lib_rsa() {
    let data = b"Unit test goes brrrrrrr";

    let rsa = RSA::new(2048).unwrap();
    let pub_key = rsa.get_public_rsa_key();

    // Encrypt
    let ciphertext = rsa.encrypt(&pub_key, data).unwrap();

    // Decrypt
    let out = rsa.decrypt(ciphertext).unwrap();

    assert_eq!(data.to_vec(), out);
}

#[test]
fn lib_signing() {
    let data = b"My precious data!";

    let rsa = RSA::new(2048).unwrap();
    let pub_key = rsa.get_public_sign_key();

    // Sign
    let signature = rsa.sign(data).unwrap();

    // Verify
    let is_valid = rsa.verify(&pub_key, data, signature).unwrap();

    assert_eq!(true, is_valid);
}

#[test]
fn lib_aes() {
    let data = b"AES is a symmetric encryption.";
    let aad = b"This will be visible but can not be changed or the decription will fail";

    let aes = AES::new().unwrap();

    // Encrypt
    let ciphertext = aes.encrypt(data, aad.to_vec()).unwrap();

    // Decrypt
    let out = aes.decrypt(ciphertext).unwrap();

    assert_eq!(data.to_vec(), out.data);

    assert_eq!(aad.to_vec(), out.aad);
}

#[test]
fn aes_serde() {
    let aes = AES::new().unwrap();

    let json = serde_json::to_string(&aes.get_key().get_key()).unwrap();

    let bytes: [u8; 32] = serde_json::from_str(&json).unwrap();
    let restored = AES::from_key(AesKey::from_bytes(bytes));

    assert_eq!(aes.get_key().get_key(), restored.get_key().get_key());
}

/// The serde form of a public key: its PEM text under `key`.
fn pem_json(der: &[u8]) -> String {
    let pem = openssl::rsa::Rsa::public_key_from_der(der)
        .unwrap()
        .public_key_to_pem()
        .unwrap();
    let mut form = std::collections::HashMap::new();
    form.insert("key".to_string(), pem);
    serde_json::to_string(&form).unwrap()
}

fn pem_from_json(json: &str) -> Vec<u8> {
    let mut form: std::collections::HashMap<String, Vec<u8>> = serde_json::from_str(json).unwrap();
    form.remove("key").unwrap()
}

#[test]
fn rsa_public_key_serde() {
    let rsa_public_key = RSA::new(2048).unwrap().get_public_rsa_key();

    let json = pem_json(rsa_public_key.get_key());

    let restored = RsaPublicKey::new(&pem_from_json(&json), KeyFormat::PEM).unwrap();

    assert_eq!(rsa_public_key.get_key(), restored.get_key());
}

#[test]
fn sign_public_key_serde() {
    let sign_public_key = RSA::new(2048).unwrap().get_public_sign_key();

    let json = pem_json(sign_public_key.get_key());

    let restored = SignPublicKey::new(&pem_from_json(&json), KeyFormat::PEM).unwrap();

    assert_eq!(sign_public_key.get_key(), restored.get_key());
}

#[test]
fn public_key_from_pem() {
    let rsa = RSA::new(2048).unwrap();
    let der = rsa.get_public_rsa_key().get_key().to_vec();
    let pem = openssl::rsa::Rsa::public_key_from_der(&der)
        .unwrap()
        .public_key_to_pem()
        .unwrap();
    let key = RsaPublicKey::new(&pem, KeyFormat::PEM).unwrap();
    assert_eq!(key.get_key(), der.as_slice());
}

#[test]
fn malformed_public_key_is_rejected() {
    assert!(matches!(
        RsaPublicKey::new(b"not a key", KeyFormat::DER),
        Err(CryptError::PublicKey(_))
    ));
    assert!(matches!(
        SignPublicKey::new(b"not a key", KeyFormat::PEM),
        Err(CryptError::PublicKey(_))
    ));
}

#[test]
fn round_trip_between_engines() {
    let a = CryptLib::new(2048).unwrap();
    let mut b = CryptLib::new(2048).unwrap();
    let b_key = b.get_public_rsa_key();

    let payload = b"payload between two engines".to_vec();
    let aad = b"metadata".to_vec();
    let record = a.encrypt(&b_key, &payload, aad.clone()).unwrap();
    let out = b.decrypt(record).unwrap();
    assert_eq!(out.data, payload);
    assert_eq!(out.aad, aad);

    // B adopted A's symmetric key: A can open what B now encrypts for A.
    let mut a = a;
    let a_key = a.get_public_rsa_key();
    let reply = b.encrypt(&a_key, b"reply", Vec::new()).unwrap();
    let out = a.decrypt(reply).unwrap();
    assert_eq!(out.data, b"reply".to_vec());
}

#[test]
fn round_trip_empty_strings() {
    let a = CryptLib::new(2048).unwrap();
    let mut b = CryptLib::new(2048).unwrap();
    let record = a.encrypt(&b.get_public_rsa_key(), b"", Vec::new()).unwrap();
    let out = b.decrypt(record).unwrap();
    assert!(out.data.is_empty());
    assert!(out.aad.is_empty());
}

#[test]
fn ciphertext_hides_plaintext() {
    let aes = AES::from_key(AesKey::from_bytes([7u8; 32]));
    let data = b"a plaintext that must not appear as it is".to_vec();
    let c = aes.encrypt(&data, Vec::new()).unwrap();
    assert_eq!(c.ciphertext.len(), data.len());
    assert_ne!(c.ciphertext, data);
}

#[test]
fn tamper_detection() {
    let a = CryptLib::new(2048).unwrap();
    let mut b = CryptLib::new(2048).unwrap();
    let b_key = b.get_public_rsa_key();
    let payload = b"tamper-evident payload".to_vec();
    let aad = b"tamper-evident metadata".to_vec();

    for part in 0..3 {
        for bit in [0usize, 7, 13, 100] {
            let mut record = a.encrypt(&b_key, &payload, aad.clone()).unwrap();
            let target = match part {
                0 => &mut record.aes_ciphertext.ciphertext[..],
                1 => &mut record.aes_ciphertext.tag[..],
                _ => &mut record.aes_ciphertext.aad[..],
            };
            let i = (bit / 8) % target.len();
            target[i] ^= 1 << (bit % 8);
            assert!(matches!(b.decrypt(record), Err(CryptError::AesError(_))));
        }
    }
}

#[test]
fn failed_decrypt_keeps_symmetric_key() {
    let a = CryptLib::new(2048).unwrap();
    let mut b = CryptLib::from_aes_key(2048, AesKey::from_bytes([9u8; 32])).unwrap();
    let mut record = a.encrypt(&b.get_public_rsa_key(), b"x", Vec::new()).unwrap();
    record.aes_ciphertext.tag[0] ^= 0x80;
    assert!(b.decrypt(record).is_err());

    // B still encrypts under its own key [9; 32]: a record for B itself opens with it.
    let own = b.encrypt(&b.get_public_rsa_key(), b"still mine", Vec::new()).unwrap();
    let aes = AES::from_key(AesKey::from_bytes([9u8; 32]));
    let out = aes.decrypt(own.aes_ciphertext).unwrap();
    assert_eq!(out.data, b"still mine".to_vec());
}

#[test]
fn wrong_key_rejection() {
    let a = CryptLib::new(2048).unwrap();
    let b = CryptLib::new(2048).unwrap();
    let mut c = CryptLib::new(2048).unwrap();
    let record = a.encrypt(&b.get_public_rsa_key(), b"for b only", Vec::new()).unwrap();
    assert!(matches!(c.decrypt(record), Err(CryptError::RsaError(_))));
}

#[test]
fn signature_integrity() {
    let signer = CryptLib::new(2048).unwrap();
    let other = CryptLib::new(2048).unwrap();
    let sign_key = signer.get_public_keys().get_sign_key().get_key().to_vec();
    let pub_key = SignPublicKey::new(&sign_key, KeyFormat::DER).unwrap();
    let other_key = SignPublicKey::new(
        other.get_public_keys().get_sign_key().get_key(),
        KeyFormat::DER,
    )
    .unwrap();

    let data = b"signed data";
    let other_data = b"other data";

    let s = signer.sign(data).unwrap();
    assert_eq!(signer.verify(&pub_key, data, s).unwrap(), true);

    let s_other = signer.sign(other_data).unwrap();
    assert_eq!(signer.verify(&pub_key, data, s_other).unwrap(), false);

    let s = signer.sign(data).unwrap();
    assert_eq!(signer.verify(&other_key, data, s).unwrap(), false);
}

#[test]
fn signatures_are_deterministic() {
    let signer = RSA::new(2048).unwrap();
    let s1 = signer.sign(b"same input").unwrap().get_signature();
    let s2 = signer.sign(b"same input").unwrap().get_signature();
    assert_eq!(s1, s2);
    assert_eq!(s1.len(), 256);
}

#[test]
fn encryption_and_signing_keys_differ() {
    let rsa = RSA::new(2048).unwrap();
    let keys = rsa.get_public_keys();
    assert_ne!(keys.get_rsa_key().get_key(), keys.get_sign_key().get_key());
    assert_eq!(keys.get_rsa_key().get_key(), rsa.get_public_rsa_key().get_key());
}

#[test]
fn aes_key_from_vec() {
    let key = AesKey::from_vec(&[5u8; 32]).unwrap();
    assert_eq!(key.get_key(), [5u8; 32]);
    assert!(matches!(AesKey::from_vec(&[1, 2, 3]), Err(CryptError::InvalidKeyLength)));
    assert!(matches!(AesKey::from_vec(&[0u8; 33]), Err(CryptError::InvalidKeyLength)));
}

#[test]
fn fresh_keys_differ() {
    let k1 = AesKey::new().unwrap().get_key();
    let k2 = AesKey::new().unwrap().get_key();
    assert_ne!(k1, k2);
}

#[test]
fn wrapped_key_has_modulus_size() {
    let a = CryptLib::new(2048).unwrap();
    let record = a.encrypt(&a.get_public_rsa_key(), b"abc", Vec::new()).unwrap();
    assert_eq!(record.rsa_ciphertext.as_bytes().len(), 256);
    assert_eq!(record.aes_ciphertext.ciphertext.len(), 3);
}

#[test]
fn rsa_oaep_bound_and_length() {
    let rsa = RSA::new(2048).unwrap();
    let key = rsa.get_public_rsa_key();
    let fits = vec![3u8; 256 - 42];
    let c = rsa.encrypt(&key, &fits).unwrap();
    assert_eq!(c.as_bytes().len(), 256);
    assert_eq!(rsa.decrypt(c).unwrap(), fits);
    let too_long = vec![3u8; 256 - 41];
    assert!(matches!(rsa.encrypt(&key, &too_long), Err(CryptError::RsaError(_))));
}

#[test]
fn key_size_follows_bits() {
    let rsa = RSA::new(1024).unwrap();
    let c = rsa.encrypt(&rsa.get_public_rsa_key(), b"k").unwrap();
    assert_eq!(c.as_bytes().len(), 128);
    let s = rsa.sign(b"k").unwrap().get_signature();
    assert_eq!(s.len(), 128);
}

#[test]
fn key_pair_from_private_checks_the_key() {
    let der = openssl::rsa::Rsa::generate(2048).unwrap().private_key_to_der().unwrap();
    let expected = openssl::rsa::Rsa::private_key_from_der(&der)
        .unwrap()
        .public_key_to_der()
        .unwrap();
    let (k, p) = networking_lib::rsa::key_pair_from_private(der.clone()).unwrap();
    assert_eq!(k, der);
    assert_eq!(p, expected);
    assert!(networking_lib::rsa::key_pair_from_private(b"junk".to_vec()).is_err());
}

#[test]
fn failed_key_generation_is_reported() {
    assert!(matches!(CryptLib::new(0), Err(CryptError::KeyGenerationError)));
    assert!(matches!(RSA::new(0), Err(CryptError::KeyGenerationError)));
}
