use vstd::prelude::*;

use crate::aes::{aes_gcm_open, tag_is_unique, AesCiphertext, AesDecrypted, AesKey, AES, MAX_INPUT_LEN};
use crate::error::CryptError;
use crate::rsa::{
    bytes_for_bits, holds_private_for, is_key_pair_public, oaep_decrypts_to, rsa_oaep_decrypt, rsa_size, rsa_sha512_sign, rsa_sha512_verify,
    PublicKey, RsaCiphertext, RsaPublicKey, Signature, SignPublicKey, RSA,
};

verus! {

/// The contents of a hybrid ciphertext, as plain byte strings.
pub ghost struct RecordView {
    /// The symmetric key, encrypted for the receiver.
    pub wrapped_key: Seq<u8>,
    /// The AES-GCM ciphertext of the payload.
    pub ciphertext: Seq<u8>,
    /// The 16-byte nonce.
    pub nonce: Seq<u8>,
    /// The associated data, authenticated but not encrypted.
    pub associated_data: Seq<u8>,
    /// The 16-byte authentication tag.
    pub tag: Seq<u8>,
}

impl RecordView {
    /// Every length in the record is one that the primitives accept.
    pub open spec fn within_limits(self) -> bool {
        &&& self.wrapped_key.len() <= MAX_INPUT_LEN
        &&& self.ciphertext.len() <= MAX_INPUT_LEN
        &&& self.associated_data.len() <= MAX_INPUT_LEN
    }

    /// The record carries `key` wrapped for the holder of `recipient_public`, as
    /// long as that key's modulus, and `data` sealed under `key` with `aad` bound to
    /// it in the clear; the ciphertext is as long as `data`, and only its own tag
    /// opens it.
    pub open spec fn seals(self, recipient_public: Seq<u8>, key: Seq<u8>, data: Seq<u8>, aad: Seq<u8>) -> bool {
        &&& self.within_limits()
        &&& self.nonce.len() == 16
        &&& self.tag.len() == 16
        &&& rsa_size(recipient_public) == Some(self.wrapped_key.len() as u32)
        &&& oaep_decrypts_to(recipient_public, self.wrapped_key, key)
        &&& self.associated_data == aad
        &&& self.ciphertext.len() == data.len()
        &&& aes_gcm_open(key, self.nonce, aad, self.ciphertext, self.tag) == Some(data)
        &&& tag_is_unique(key, self.nonce, aad, self.ciphertext, self.tag)
    }

    /// What the holder of `recipient_private` recovers from the record: the symmetric
    /// key, the plaintext and the associated data.
    pub open spec fn opened_by(self, recipient_private: Seq<u8>) -> Option<(Seq<u8>, Seq<u8>, Seq<u8>)> {
        if !self.within_limits() {
            None
        } else {
            match rsa_oaep_decrypt(recipient_private, self.wrapped_key) {
                Some(key) => if key.len() != 32 {
                    None
                } else {
                    match aes_gcm_open(key, self.nonce, self.associated_data, self.ciphertext, self.tag) {
                        Some(data) => Some((key, data, self.associated_data)),
                        None => None,
                    }
                },
                None => None,
            }
        }
    }
}

/// A hybrid ciphertext: the symmetric key wrapped for the receiver, and the
/// AES-GCM ciphertext made under that key.
pub struct CiphertextData {
    pub rsa_ciphertext: RsaCiphertext,
    pub aes_ciphertext: AesCiphertext,
}

impl View for CiphertextData {
    type V = RecordView;

    open spec fn view(&self) -> RecordView {
        RecordView {
            wrapped_key: self.rsa_ciphertext@,
            ciphertext: self.aes_ciphertext.ciphertext@,
            nonce: self.aes_ciphertext.iv@,
            associated_data: self.aes_ciphertext.aad@,
            tag: self.aes_ciphertext.tag@,
        }
    }
}

impl CiphertextData {
    pub fn new(rsa_ciphertext: RsaCiphertext, aes_ciphertext: AesCiphertext) -> (r: Self)
        ensures
            r == (CiphertextData { rsa_ciphertext, aes_ciphertext }),
    {
        CiphertextData { rsa_ciphertext, aes_ciphertext }
    }

    pub fn get_components(self) -> (r: (RsaCiphertext, AesCiphertext))
        ensures
            r == (self.rsa_ciphertext, self.aes_ciphertext),
    {
        (self.rsa_ciphertext, self.aes_ciphertext)
    }
}

/// The cryptographic engine: an encryption key pair, a signing key pair and the
/// current symmetric session key.
pub struct CryptLib {
    rsa: RSA,
    aes: AES,
}

impl CryptLib {
    /// The current symmetric key.
    pub closed spec fn key_view(&self) -> Seq<u8> {
        self.aes@
    }

    /// The private encryption key, as DER.
    pub closed spec fn private_view(&self) -> Seq<u8> {
        self.rsa.private_view()
    }

    /// The public encryption key, as DER.
    pub closed spec fn public_view(&self) -> Seq<u8> {
        self.rsa.public_view()
    }

    /// The private signing key, as DER.
    pub closed spec fn sign_private_view(&self) -> Seq<u8> {
        self.rsa.sign_private_view()
    }

    /// The public signing key, as DER.
    pub closed spec fn sign_public_view(&self) -> Seq<u8> {
        self.rsa.sign_public_view()
    }

    pub closed spec fn wf(&self) -> bool {
        &&& self.rsa.wf()
        &&& self.aes@.len() == 32
    }

    /// Each private key matches its public half, and the symmetric key is 32 bytes. So
    /// a signature this engine makes gets an answer, never an error, from `verify`
    /// with this engine's key or any other consistent key of the same size.
    pub proof fn lemma_wf(&self)
        requires
            self.wf(),
        ensures
            holds_private_for(self.private_view(), self.public_view()),
            holds_private_for(self.sign_private_view(), self.sign_public_view()),
            is_key_pair_public(self.public_view()),
            is_key_pair_public(self.sign_public_view()),
            self.key_view().len() == 32,
    {
        assert(holds_private_for(self.private_view(), self.public_view()));
        assert(holds_private_for(self.sign_private_view(), self.sign_public_view()));
    }

    /// A fresh identity: both key pairs with `bits` bits, and a random symmetric key.
    /// A failure of randomness or of key generation is a `KeyGenerationError`.
    pub fn new(bits: u32) -> (r: Result<Self, CryptError>)
        ensures
            r is Ok ==> r->Ok_0.wf(),
            r is Ok ==> rsa_size(r->Ok_0.public_view()) == Some(bytes_for_bits(bits)),
            r is Ok ==> rsa_size(r->Ok_0.sign_public_view()) == Some(bytes_for_bits(bits)),
            r is Err ==> r->Err_0 is KeyGenerationError,
    {
        let rsa = match RSA::new(bits) {
            Ok(rsa) => rsa,
            Err(e) => return Err(e),
        };
        let key = match AesKey::new() {
            Ok(key) => key,
            Err(_) => return Err(CryptError::KeyGenerationError),
        };
        Ok(CryptLib { rsa, aes: AES::from_key(key) })
    }

    /// A fresh identity whose symmetric key is `aes_key`.
    pub fn from_aes_key(bits: u32, aes_key: AesKey) -> (r: Result<Self, CryptError>)
        ensures
            r is Ok ==> r->Ok_0.wf() && r->Ok_0.key_view() == aes_key@,
            r is Ok ==> rsa_size(r->Ok_0.public_view()) == Some(bytes_for_bits(bits)),
            r is Ok ==> rsa_size(r->Ok_0.sign_public_view()) == Some(bytes_for_bits(bits)),
            r is Err ==> r->Err_0 is KeyGenerationError,
    {
        proof {
            aes_key.lemma_len();
        }
        let rsa = match RSA::new(bits) {
            Ok(rsa) => rsa,
            Err(e) => return Err(e),
        };
        Ok(CryptLib { rsa, aes: AES::from_key(aes_key) })
    }

    /// Both public keys of this identity.
    pub fn get_public_keys(&self) -> (r: PublicKey)
        ensures
            r.rsa_view() == self.public_view(),
            r.sign_view() == self.sign_public_view(),
    {
        self.rsa.get_public_keys()
    }

    /// The public encryption key of this identity.
    pub fn get_public_rsa_key(&self) -> (r: RsaPublicKey)
        ensures
            r@ == self.public_view(),
    {
        self.rsa.get_public_rsa_key()
    }

    /// Seals `data` under the current symmetric key with `aad` bound to it, and wraps
    /// that key for the holder of `receiver_public_key`. `aad` is **not** encrypted.
    pub fn encrypt(&self, receiver_public_key: &RsaPublicKey, data: &[u8], aad: Vec<u8>) -> (r: Result<CiphertextData, CryptError>)
        ensures
            match r {
                Ok(c) => c@.seals(receiver_public_key@, self.key_view(), data@, aad@),
                Err(e) => {
                    ||| (e is InputTooLarge && (data@.len() > MAX_INPUT_LEN || aad@.len() > MAX_INPUT_LEN))
                    ||| e is RandError
                    ||| e is AesError
                    ||| e is RsaError
                },
            },
            (data@.len() > MAX_INPUT_LEN || aad@.len() > MAX_INPUT_LEN) ==> r matches Err(CryptError::InputTooLarge),
    {
        let aes_ciphertext = match self.aes.encrypt(data, aad) {
            Ok(c) => c,
            Err(e) => return Err(e),
        };
        let key = self.aes.get_key().get_key();
        let rsa_ciphertext = match self.rsa.encrypt(receiver_public_key, &key) {
            Ok(c) => c,
            Err(e) => return Err(e),
        };
        Ok(CiphertextData { rsa_ciphertext, aes_ciphertext })
    }

    /// Unwraps the symmetric key with this side's private key and opens the sealed
    /// data with it. On success the recovered key **replaces** this engine's own
    /// symmetric key, so the next encryption uses the sender's key.
    pub fn decrypt(&mut self, ciphertext: CiphertextData) -> (r: Result<AesDecrypted, CryptError>)
        requires
            old(self).wf(),
        ensures
            final(self).wf(),
            final(self).private_view() == old(self).private_view(),
            final(self).public_view() == old(self).public_view(),
            final(self).sign_private_view() == old(self).sign_private_view(),
            final(self).sign_public_view() == old(self).sign_public_view(),
            match ciphertext@.opened_by(old(self).private_view()) {
                Some((key, data, aad)) => {
                    &&& r is Ok
                    &&& r->Ok_0.data@ == data
                    &&& r->Ok_0.aad@ == aad
                    &&& final(self).key_view() == key
                },
                None => r is Err && final(self).key_view() == old(self).key_view(),
            },
            r is Err ==> {
                ||| (r->Err_0 is InputTooLarge && !ciphertext@.within_limits())
                ||| r->Err_0 is RsaError
                ||| r->Err_0 is InvalidKeyLength
                ||| r->Err_0 is AesError
            },
    {
        let (rsa_ciphertext, aes_ciphertext) = ciphertext.get_components();
        if rsa_ciphertext.as_bytes().len() > MAX_INPUT_LEN || aes_ciphertext.aad.len() > MAX_INPUT_LEN
            || aes_ciphertext.ciphertext.len() > MAX_INPUT_LEN {
            return Err(CryptError::InputTooLarge);
        }
        let key_bytes = match self.rsa.decrypt(rsa_ciphertext) {
            Ok(k) => k,
            Err(e) => return Err(e),
        };
        let key = match AesKey::from_vec(key_bytes.as_slice()) {
            Ok(k) => k,
            Err(e) => return Err(e),
        };
        let candidate = AES::from_key(key);
        let decrypted = match candidate.decrypt(aes_ciphertext) {
            Ok(d) => d,
            Err(e) => return Err(e),
        };
        self.aes = candidate;
        Ok(decrypted)
    }

    /// Signs `data` with this identity's signing key.
    pub fn sign(&self, data: &[u8]) -> (r: Result<Signature, CryptError>)
        requires
            self.wf(),
        ensures
            match r {
                Ok(s) => {
                    &&& rsa_sha512_sign(self.sign_private_view(), data@) == Some(s@)
                    &&& rsa_sha512_verify(self.sign_public_view(), data@, s@) == Some(true)
                    &&& rsa_size(self.sign_public_view()) == Some(s@.len() as u32)
                },
                Err(e) => e is SignError && rsa_sha512_sign(self.sign_private_view(), data@) is None,
            },
    {
        self.rsa.sign(data)
    }

    /// Checks `signature` over `data` against `public_key`: `Ok(false)` for a signature
    /// that does not match, an error only for malformed input. The public half of a
    /// consistent key with a signature as long as its modulus always gets an answer.
    pub fn verify(&self, public_key: &SignPublicKey, data: &[u8], signature: Signature) -> (r: Result<bool, CryptError>)
        ensures
            match r {
                Ok(b) => rsa_sha512_verify(public_key@, data@, signature@) == Some(b),
                Err(e) => e is SignError && rsa_sha512_verify(public_key@, data@, signature@) is None,
            },
            is_key_pair_public(public_key@) && rsa_size(public_key@) == Some(signature@.len() as u32) ==> r is Ok,
    {
        self.rsa.verify(public_key, data, signature)
    }
}

/// Round trip: a record that an engine sealed for the public key of `receiver`,
/// under its symmetric key `key`, opens for `receiver` to exactly the plaintext and
/// associated data that were sealed, and hands `key` over to it.
pub proof fn lemma_round_trip(record: RecordView, receiver: CryptLib, key: Seq<u8>, data: Seq<u8>, aad: Seq<u8>)
    requires
        receiver.wf(),
        key.len() == 32,
        record.seals(receiver.public_view(), key, data, aad),
    ensures
        record.opened_by(receiver.private_view()) == Some((key, data, aad)),
{
    receiver.lemma_wf();
    assert(holds_private_for(receiver.private_view(), receiver.public_view()));
}

/// Tamper detection on the tag: a record that an engine sealed for the public key of
/// `receiver` opens for no one once its tag is replaced by any other 16-byte tag.
pub proof fn lemma_changed_tag_rejected(record: RecordView, receiver: CryptLib, key: Seq<u8>, data: Seq<u8>, aad: Seq<u8>, tag: Seq<u8>)
    requires
        receiver.wf(),
        key.len() == 32,
        record.seals(receiver.public_view(), key, data, aad),
        tag.len() == 16,
        tag != record.tag,
    ensures
        (RecordView { tag, ..record }).opened_by(receiver.private_view()) is None,
{
    receiver.lemma_wf();
    assert(holds_private_for(receiver.private_view(), receiver.public_view()));
    assert(aes_gcm_open(key, record.nonce, aad, record.ciphertext, tag) is None);
}

} // verus!
