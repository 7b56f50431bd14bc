use vstd::prelude::*;

use crate::error::CryptError;

verus! {

/// What `openssl::symm::encrypt_aead` with AES-256-GCM returns for a key, a nonce,
/// associated data and a plaintext: the ciphertext and the 16-byte tag, or `None`
/// where it fails.
pub uninterp spec fn aes_gcm_seal(key: Seq<u8>, iv: Seq<u8>, aad: Seq<u8>, data: Seq<u8>) -> Option<(Seq<u8>, Seq<u8>)>;

/// What `openssl::symm::decrypt_aead` with AES-256-GCM returns for a key, a nonce,
/// associated data, a ciphertext and a tag: the plaintext, or `None` where
/// authentication fails.
pub uninterp spec fn aes_gcm_open(key: Seq<u8>, iv: Seq<u8>, aad: Seq<u8>, ciphertext: Seq<u8>, tag: Seq<u8>) -> Option<Seq<u8>>;

/// No 16-byte tag but `tag` opens `ciphertext` under this key, nonce and associated data.
pub open spec fn tag_is_unique(key: Seq<u8>, iv: Seq<u8>, aad: Seq<u8>, ciphertext: Seq<u8>, tag: Seq<u8>) -> bool {
    forall|t: Seq<u8>| #![trigger aes_gcm_open(key, iv, aad, ciphertext, t)]
        t.len() == 16 && aes_gcm_open(key, iv, aad, ciphertext, t) is Some ==> t == tag
}

/// Largest input length that OpenSSL's length parameters (`c_int`) accept.
pub const MAX_INPUT_LEN: usize = 0x7fff_ffff;

/// Relies on `openssl::rand::rand_bytes`: fills a buffer of `N` bytes from the
/// cryptographically secure generator. Nothing is known of the bytes.
#[verifier::external_body]
pub(crate) fn random_array<const N: usize>() -> (r: Result<[u8; N], openssl::error::ErrorStack>)
    requires
        N <= MAX_INPUT_LEN,
{
    let mut buf = [0u8; N];
    openssl::rand::rand_bytes(&mut buf).map(|_| buf)
}

/// Relies on `openssl::symm::encrypt_aead` with `Cipher::aes_256_gcm()`: the result is
/// a function of its arguments, and `decrypt_aead` on it with the same key, nonce and
/// associated data gives the plaintext back. GCM is a stream mode: the ciphertext is
/// as long as the plaintext. The full 16-byte tag is a function of key, nonce,
/// associated data and ciphertext, and `decrypt_aead` compares all of it, so no other
/// 16-byte tag opens the ciphertext.
#[verifier::external_body]
fn seal(key: &[u8; 32], iv: &[u8; 16], aad: &[u8], data: &[u8]) -> (r: Result<(Vec<u8>, [u8; 16]), openssl::error::ErrorStack>)
    requires
        aad@.len() <= MAX_INPUT_LEN,
        data@.len() <= MAX_INPUT_LEN,
    ensures
        match r {
            Ok((c, t)) => {
                &&& c@.len() == data@.len()
                &&& aes_gcm_seal(key@, iv@, aad@, data@) == Some((c@, t@))
                &&& aes_gcm_open(key@, iv@, aad@, c@, t@) == Some(data@)
                &&& tag_is_unique(key@, iv@, aad@, c@, t@)
            },
            Err(_) => aes_gcm_seal(key@, iv@, aad@, data@) is None,
        },
{
    let mut tag = [0u8; 16];
    let cipher = openssl::symm::Cipher::aes_256_gcm();
    openssl::symm::encrypt_aead(cipher, key, Some(iv), aad, data, &mut tag).map(|c| (c, tag))
}

/// Relies on `openssl::symm::decrypt_aead` with `Cipher::aes_256_gcm()`: the result is
/// a function of its arguments.
#[verifier::external_body]
fn open(key: &[u8; 32], iv: &[u8; 16], aad: &[u8], ciphertext: &[u8], tag: &[u8; 16]) -> (r: Result<Vec<u8>, openssl::error::ErrorStack>)
    requires
        aad@.len() <= MAX_INPUT_LEN,
        ciphertext@.len() <= MAX_INPUT_LEN,
    ensures
        match r {
            Ok(d) => aes_gcm_open(key@, iv@, aad@, ciphertext@, tag@) == Some(d@),
            Err(_) => aes_gcm_open(key@, iv@, aad@, ciphertext@, tag@) is None,
        },
{
    let cipher = openssl::symm::Cipher::aes_256_gcm();
    openssl::symm::decrypt_aead(cipher, key, Some(iv), aad, ciphertext, tag)
}

/// A 32-byte AES-256 key.
pub struct AesKey {
    key: [u8; 32],
}

impl View for AesKey {
    type V = Seq<u8>;

    closed spec fn view(&self) -> Seq<u8> {
        self.key@
    }
}

impl AesKey {
    /// A fresh random key.
    pub fn new() -> (r: Result<Self, CryptError>)
        ensures
            r is Ok ==> r->Ok_0@.len() == 32,
            r is Err ==> r->Err_0 is RandError,
    {
        match random_array::<32>() {
            Ok(key) => Ok(AesKey { key }),
            Err(e) => Err(CryptError::RandError(e)),
        }
    }

    pub fn from_bytes(bytes: [u8; 32]) -> (r: Self)
        ensures
            r@ == bytes@,
    {
        AesKey { key: bytes }
    }

    /// A key from a byte string that must be exactly 32 bytes long.
    pub fn from_vec(bytes: &[u8]) -> (r: Result<Self, CryptError>)
        ensures
            match r {
                Ok(k) => bytes@.len() == 32 && k@ == bytes@,
                Err(e) => bytes@.len() != 32 && e is InvalidKeyLength,
            },
    {
        if bytes.len() != 32 {
            return Err(CryptError::InvalidKeyLength);
        }
        let mut key = [0u8; 32];
        let mut i: usize = 0;
        while i < 32
            invariant
                bytes@.len() == 32,
                i <= 32,
                key@.len() == 32,
                forall|j: int| 0 <= j < i ==> key@[j] == bytes@[j],
            decreases 32 - i,
        {
            key[i] = bytes[i];
            i = i + 1;
        }
        assert(key@ =~= bytes@);
        Ok(AesKey { key })
    }

    pub fn get_key(&self) -> (r: [u8; 32])
        ensures
            r@ == self@,
    {
        self.key
    }

    /// Every key is 32 bytes long.
    pub proof fn lemma_len(&self)
        ensures
            self@.len() == 32,
    {
    }
}

/// The output of an AES-256-GCM encryption: the ciphertext, the nonce it was made
/// with, the associated data it authenticates and the authentication tag.
pub struct AesCiphertext {
    pub ciphertext: Vec<u8>,
    pub iv: [u8; 16],
    pub aad: Vec<u8>,
    pub tag: [u8; 16],
}

impl AesCiphertext {
    pub fn new(ciphertext: Vec<u8>, iv: [u8; 16], aad: Vec<u8>, tag: [u8; 16]) -> (r: Self)
        ensures
            r.ciphertext@ == ciphertext@,
            r.iv@ == iv@,
            r.aad@ == aad@,
            r.tag@ == tag@,
    {
        AesCiphertext { ciphertext, iv, aad, tag }
    }

    pub fn get_components(self) -> (r: (Vec<u8>, [u8; 16], Vec<u8>, [u8; 16]))
        ensures
            r.0@ == self.ciphertext@,
            r.1@ == self.iv@,
            r.2@ == self.aad@,
            r.3@ == self.tag@,
    {
        (self.ciphertext, self.iv, self.aad, self.tag)
    }

    /// Whether this ciphertext opens under `key`, and to what.
    pub open spec fn opened_with(&self, key: Seq<u8>) -> Option<Seq<u8>> {
        aes_gcm_open(key, self.iv@, self.aad@, self.ciphertext@, self.tag@)
    }

    pub open spec fn within_limits(&self) -> bool {
        &&& self.aad@.len() <= MAX_INPUT_LEN
        &&& self.ciphertext@.len() <= MAX_INPUT_LEN
    }
}

/// A decrypted plaintext together with the associated data that was authenticated with it.
pub struct AesDecrypted {
    pub data: Vec<u8>,
    pub aad: Vec<u8>,
}

impl AesDecrypted {
    pub fn new(data: Vec<u8>, aad: Vec<u8>) -> (r: Self)
        ensures
            r.data@ == data@,
            r.aad@ == aad@,
    {
        AesDecrypted { data, aad }
    }

    pub fn get_components(self) -> (r: (Vec<u8>, Vec<u8>))
        ensures
            r.0@ == self.data@,
            r.1@ == self.aad@,
    {
        (self.data, self.aad)
    }
}

/// AES-256-GCM under one replaceable key.
pub struct AES {
    key: AesKey,
}

impl View for AES {
    type V = Seq<u8>;

    closed spec fn view(&self) -> Seq<u8> {
        self.key@
    }
}

impl AES {
    /// An instance with a fresh random key.
    pub fn new() -> (r: Result<Self, CryptError>)
        ensures
            r is Ok ==> r->Ok_0@.len() == 32,
            r is Err ==> r->Err_0 is RandError,
    {
        match AesKey::new() {
            Ok(key) => Ok(AES { key }),
            Err(e) => Err(e),
        }
    }

    pub fn from_key(key: AesKey) -> (r: Self)
        ensures
            r@ == key@,
    {
        AES { key }
    }

    pub fn get_key(&self) -> (r: &AesKey)
        ensures
            r@ == self@,
    {
        &self.key
    }

    /// Replaces the key; later encryptions and decryptions use `key`.
    pub fn set_key(&mut self, key: AesKey)
        ensures
            final(self)@ == key@,
    {
        self.key = key;
    }

    /// Encrypts `data` under the current key with a fresh random nonce. `aad` is not
    /// encrypted but is bound into the tag, so that it cannot be altered.
    pub fn encrypt(&self, data: &[u8], aad: Vec<u8>) -> (r: Result<AesCiphertext, CryptError>)
        ensures
            match r {
                Ok(c) => {
                    &&& c.aad@ == aad@
                    &&& c.ciphertext@.len() == data@.len()
                    &&& aes_gcm_seal(self@, c.iv@, aad@, data@) == Some((c.ciphertext@, c.tag@))
                    &&& c.opened_with(self@) == Some(data@)
                    &&& tag_is_unique(self@, c.iv@, c.aad@, c.ciphertext@, c.tag@)
                },
                Err(e) => {
                    ||| (e is InputTooLarge && (data@.len() > MAX_INPUT_LEN || aad@.len() > MAX_INPUT_LEN))
                    ||| e is RandError
                    ||| e is AesError
                },
            },
            (data@.len() > MAX_INPUT_LEN || aad@.len() > MAX_INPUT_LEN) ==> r matches Err(CryptError::InputTooLarge),
    {
        if data.len() > MAX_INPUT_LEN || aad.len() > MAX_INPUT_LEN {
            return Err(CryptError::InputTooLarge);
        }
        let iv = match random_array::<16>() {
            Ok(iv) => iv,
            Err(e) => return Err(CryptError::RandError(e)),
        };
        match seal(&self.key.key, &iv, aad.as_slice(), data) {
            Ok((ciphertext, tag)) => Ok(AesCiphertext { ciphertext, iv, aad, tag }),
            Err(e) => Err(CryptError::AesError(e)),
        }
    }

    /// Decrypts `ciphertext` under the current key, checking its tag and associated data.
    pub fn decrypt(&self, ciphertext: AesCiphertext) -> (r: Result<AesDecrypted, CryptError>)
        ensures
            match r {
                Ok(d) => {
                    &&& ciphertext.opened_with(self@) == Some(d.data@)
                    &&& d.aad@ == ciphertext.aad@
                },
                Err(e) => {
                    ||| (e is InputTooLarge && !ciphertext.within_limits())
                    ||| (e is AesError && ciphertext.opened_with(self@) is None)
                },
            },
            ciphertext.within_limits() ==> (r is Ok <==> ciphertext.opened_with(self@) is Some),
    {
        if ciphertext.aad.len() > MAX_INPUT_LEN || ciphertext.ciphertext.len() > MAX_INPUT_LEN {
            return Err(CryptError::InputTooLarge);
        }
        match open(&self.key.key, &ciphertext.iv, ciphertext.aad.as_slice(), ciphertext.ciphertext.as_slice(), &ciphertext.tag) {
            Ok(data) => Ok(AesDecrypted { data, aad: ciphertext.aad }),
            Err(e) => Err(CryptError::AesError(e)),
        }
    }
}

} // verus!
