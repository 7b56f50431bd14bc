use vstd::prelude::*;

use crate::aes::MAX_INPUT_LEN;
use crate::error::CryptError;

verus! {

/// Whether `Rsa::private_key_from_der` accepts these bytes and `check_key` then
/// returns `Ok(true)`: the key's parameters are consistent.
pub uninterp spec fn rsa_check_key(private_der: Seq<u8>) -> bool;

/// What `Rsa::public_key_to_der` returns for the private key that these DER bytes
/// hold: its public half as DER (SubjectPublicKeyInfo), or `None` where they do not parse.
pub uninterp spec fn rsa_public_of(private_der: Seq<u8>) -> Option<Seq<u8>>;

/// What `Rsa::private_decrypt` with OAEP padding returns, under the private key that
/// these DER bytes hold, for a ciphertext.
pub uninterp spec fn rsa_oaep_decrypt(private_der: Seq<u8>, ciphertext: Seq<u8>) -> Option<Seq<u8>>;

/// What an `openssl::sign::Signer` with SHA-512 (PKCS#1 v1.5 padding) returns over
/// `data` under the RSA private key (PKCS#1 DER) that these bytes hold.
pub uninterp spec fn rsa_sha512_sign(private_der: Seq<u8>, data: Seq<u8>) -> Option<Seq<u8>>;

/// What an `openssl::sign::Verifier` with SHA-512 returns for a public key (DER),
/// data and a signature.
pub uninterp spec fn rsa_sha512_verify(public_der: Seq<u8>, data: Seq<u8>, signature: Seq<u8>) -> Option<bool>;

/// What `Rsa::public_key_from_der` followed by `public_key_to_der` returns for
/// the given bytes.
pub uninterp spec fn rsa_public_from_der(bytes: Seq<u8>) -> Option<Seq<u8>>;

/// What `Rsa::public_key_from_pem` followed by `public_key_to_der` returns for
/// the given bytes.
pub uninterp spec fn rsa_public_from_pem(bytes: Seq<u8>) -> Option<Seq<u8>>;

/// What `Rsa::size` returns for the public key that these DER bytes hold: the
/// modulus size in bytes, or `None` where they do not parse.
pub uninterp spec fn rsa_size(public_der: Seq<u8>) -> Option<u32>;

/// The modulus size in bytes of a key of `bits` bits.
pub open spec fn bytes_for_bits(bits: u32) -> u32 {
    ((bits as int + 7) / 8) as u32
}

/// The largest plaintext that OAEP padding (with SHA-1, OpenSSL's default) fits
/// into a modulus of `size` bytes.
pub open spec fn oaep_capacity(size: u32) -> int {
    size - 42
}

/// A consistent private key (DER) whose public half is `public_der`.
pub open spec fn holds_private_for(private_der: Seq<u8>, public_der: Seq<u8>) -> bool {
    rsa_check_key(private_der) && rsa_public_of(private_der) == Some(public_der)
}

/// `public_der` is the public half of some consistent private key.
pub open spec fn is_key_pair_public(public_der: Seq<u8>) -> bool {
    exists|k: Seq<u8>| #[trigger] holds_private_for(k, public_der)
}

/// `ciphertext` decrypts to `data` under every consistent private key whose public
/// half is `public_der`.
pub open spec fn oaep_decrypts_to(public_der: Seq<u8>, ciphertext: Seq<u8>, data: Seq<u8>) -> bool {
    forall|k: Seq<u8>| #[trigger] holds_private_for(k, public_der) ==> rsa_oaep_decrypt(k, ciphertext) == Some(data)
}

/// Relies on `Rsa::generate` and `private_key_to_der`: a fresh key pair of the
/// specified size, `bits` bits, with public exponent 65537, as DER (PKCS#1).
/// Nothing else is known of the key.
#[verifier::external_body]
fn generate_private_der(bits: u32) -> (r: Result<Vec<u8>, openssl::error::ErrorStack>)
    ensures
        r is Ok ==> (rsa_public_of(r->Ok_0@) matches Some(p) ==> rsa_size(p) == Some(bytes_for_bits(bits))),
{
    openssl::rsa::Rsa::generate(bits)?.private_key_to_der()
}

/// Relies on `Rsa::private_key_from_der` and `check_key`.
#[verifier::external_body]
fn check_private_der(private_der: &[u8]) -> (r: Result<bool, openssl::error::ErrorStack>)
    ensures
        (r is Ok && r->Ok_0) <==> rsa_check_key(private_der@),
{
    openssl::rsa::Rsa::private_key_from_der(private_der)?.check_key()
}

/// Relies on `Rsa::private_key_from_der` and `public_key_to_der`.
#[verifier::external_body]
fn public_der_of(private_der: &[u8]) -> (r: Result<Vec<u8>, openssl::error::ErrorStack>)
    ensures
        match r {
            Ok(p) => rsa_public_of(private_der@) == Some(p@),
            Err(_) => rsa_public_of(private_der@) is None,
        },
{
    openssl::rsa::Rsa::private_key_from_der(private_der)?.public_key_to_der()
}

/// Relies on `Rsa::public_key_from_der`, `size` and `public_encrypt` with OAEP
/// padding (SHA-1): the output is as long as the modulus, the padding refuses data
/// longer than the modulus size less 42 bytes, and the matching private key decrypts
/// the output to `data`. The padding is random, so nothing else is known of the output.
#[verifier::external_body]
fn oaep_encrypt(public_der: &[u8], data: &[u8]) -> (r: Result<Vec<u8>, openssl::error::ErrorStack>)
    requires
        data@.len() <= MAX_INPUT_LEN,
    ensures
        r is Ok ==> r->Ok_0@.len() <= MAX_INPUT_LEN,
        r is Ok ==> rsa_size(public_der@) == Some(r->Ok_0@.len() as u32),
        r is Ok ==> oaep_decrypts_to(public_der@, r->Ok_0@, data@),
        match rsa_size(public_der@) {
            Some(k) => data@.len() > oaep_capacity(k) ==> r is Err,
            None => r is Err,
        },
{
    let key = openssl::rsa::Rsa::public_key_from_der(public_der)?;
    let mut out = vec![0u8; key.size() as usize];
    let n = key.public_encrypt(data, &mut out, openssl::rsa::Padding::PKCS1_OAEP)?;
    out.truncate(n);
    Ok(out)
}

/// Relies on `Rsa::private_key_from_der` and `private_decrypt` with OAEP padding.
#[verifier::external_body]
fn oaep_decrypt(private_der: &[u8], ciphertext: &[u8]) -> (r: Result<Vec<u8>, openssl::error::ErrorStack>)
    requires
        ciphertext@.len() <= MAX_INPUT_LEN,
    ensures
        match r {
            Ok(d) => rsa_oaep_decrypt(private_der@, ciphertext@) == Some(d@),
            Err(_) => rsa_oaep_decrypt(private_der@, ciphertext@) is None,
        },
{
    let key = openssl::rsa::Rsa::private_key_from_der(private_der)?;
    let mut out = vec![0u8; key.size() as usize];
    let n = key.private_decrypt(ciphertext, &mut out, openssl::rsa::Padding::PKCS1_OAEP)?;
    out.truncate(n);
    Ok(out)
}

/// Relies on `Rsa::private_key_from_der`, `PKey::from_rsa` and `Signer` with
/// SHA-512: only a PKCS#1 RSA key reaches the signer, and its PKCS#1 v1.5 signatures
/// are deterministic and as long as the modulus. The verifier accepts a signature
/// that a consistent key made with its own public half.
#[verifier::external_body]
fn sign_sha512(private_der: &[u8], data: &[u8]) -> (r: Result<Vec<u8>, openssl::error::ErrorStack>)
    requires
        rsa_check_key(private_der@),
    ensures
        match r {
            Ok(s) => {
                &&& rsa_sha512_sign(private_der@, data@) == Some(s@)
                &&& forall|p: Seq<u8>| #[trigger] holds_private_for(private_der@, p) ==> {
                    &&& rsa_sha512_verify(p, data@, s@) == Some(true)
                    &&& rsa_size(p) == Some(s@.len() as u32)
                }
            },
            Err(_) => rsa_sha512_sign(private_der@, data@) is None,
        },
{
    let rsa = openssl::rsa::Rsa::private_key_from_der(private_der)?;
    let key = openssl::pkey::PKey::from_rsa(rsa)?;
    let mut signer = openssl::sign::Signer::new(openssl::hash::MessageDigest::sha512(), &key)?;
    signer.update(data)?;
    signer.sign_to_vec()
}

/// Relies on `PKey::public_key_from_der` and `Verifier` with SHA-512. For the public
/// half of a consistent RSA key and a signature as long as its modulus,
/// `RSA_verify` answers 1 or 0, which `Verifier::verify` turns into `Ok(true)` or
/// `Ok(false)`: a mismatch is never an error there.
#[verifier::external_body]
fn verify_sha512(public_der: &[u8], data: &[u8], signature: &[u8]) -> (r: Result<bool, openssl::error::ErrorStack>)
    ensures
        match r {
            Ok(b) => rsa_sha512_verify(public_der@, data@, signature@) == Some(b),
            Err(_) => rsa_sha512_verify(public_der@, data@, signature@) is None,
        },
        is_key_pair_public(public_der@) && rsa_size(public_der@) == Some(signature@.len() as u32) ==> r is Ok,
{
    let key = openssl::pkey::PKey::public_key_from_der(public_der)?;
    let mut verifier = openssl::sign::Verifier::new(openssl::hash::MessageDigest::sha512(), &key)?;
    verifier.update(data)?;
    verifier.verify(signature)
}

/// Relies on `Rsa::public_key_from_der` and `public_key_to_der`.
#[verifier::external_body]
fn public_der_from_der(bytes: &[u8]) -> (r: Result<Vec<u8>, openssl::error::ErrorStack>)
    ensures
        match r {
            Ok(p) => rsa_public_from_der(bytes@) == Some(p@),
            Err(_) => rsa_public_from_der(bytes@) is None,
        },
{
    openssl::rsa::Rsa::public_key_from_der(bytes)?.public_key_to_der()
}

/// Relies on `Rsa::public_key_from_pem` and `public_key_to_der`. The PEM text goes
/// through a memory BIO, which takes at most `i32::MAX` bytes.
#[verifier::external_body]
fn public_der_from_pem(bytes: &[u8]) -> (r: Result<Vec<u8>, openssl::error::ErrorStack>)
    requires
        bytes@.len() <= MAX_INPUT_LEN,
    ensures
        match r {
            Ok(p) => rsa_public_from_pem(bytes@) == Some(p@),
            Err(_) => rsa_public_from_pem(bytes@) is None,
        },
{
    openssl::rsa::Rsa::public_key_from_pem(bytes)?.public_key_to_der()
}

/// Common supported key formats.
#[derive(Clone, Copy, Debug, PartialEq, Eq, Structural)]
pub enum KeyFormat {
    PEM,
    DER,
}

/// What parsing `bytes` in `format` as a public key gives, as DER.
pub open spec fn parsed_public(bytes: Seq<u8>, format: KeyFormat) -> Option<Seq<u8>> {
    match format {
        KeyFormat::DER => rsa_public_from_der(bytes),
        KeyFormat::PEM => rsa_public_from_pem(bytes),
    }
}

/// The inputs that a parse in `format` refuses for their length alone.
pub open spec fn too_long_to_parse(bytes: Seq<u8>, format: KeyFormat) -> bool {
    format == KeyFormat::PEM && bytes.len() > MAX_INPUT_LEN
}

fn parse_public(bytes: &[u8], format: KeyFormat) -> (r: Result<Vec<u8>, CryptError>)
    ensures
        match r {
            Ok(p) => !too_long_to_parse(bytes@, format) && parsed_public(bytes@, format) == Some(p@),
            Err(e) => {
                ||| (e is InputTooLarge && too_long_to_parse(bytes@, format))
                ||| (e is PublicKey && !too_long_to_parse(bytes@, format) && parsed_public(bytes@, format) is None)
            },
        },
{
    let parsed = match format {
        KeyFormat::DER => public_der_from_der(bytes),
        KeyFormat::PEM => {
            if bytes.len() > MAX_INPUT_LEN {
                return Err(CryptError::InputTooLarge);
            }
            public_der_from_pem(bytes)
        },
    };
    match parsed {
        Ok(p) => Ok(p),
        Err(e) => Err(CryptError::PublicKey(e)),
    }
}

/// The public half of an encryption key pair, held as DER.
pub struct RsaPublicKey {
    der: Vec<u8>,
}

impl View for RsaPublicKey {
    type V = Seq<u8>;

    closed spec fn view(&self) -> Seq<u8> {
        self.der@
    }
}

impl RsaPublicKey {
    /// Parses a public key given in `key_format`.
    pub fn new(public_key: &[u8], key_format: KeyFormat) -> (r: Result<Self, CryptError>)
        ensures
            match r {
                Ok(k) => !too_long_to_parse(public_key@, key_format) && parsed_public(public_key@, key_format) == Some(k@),
                Err(e) => {
                    ||| (e is InputTooLarge && too_long_to_parse(public_key@, key_format))
                    ||| (e is PublicKey && !too_long_to_parse(public_key@, key_format) && parsed_public(public_key@, key_format) is None)
                },
            },
    {
        match parse_public(public_key, key_format) {
            Ok(der) => Ok(RsaPublicKey { der }),
            Err(e) => Err(e),
        }
    }

    /// The key as DER (SubjectPublicKeyInfo).
    pub fn get_key(&self) -> (r: &[u8])
        ensures
            r@ == self@,
    {
        self.der.as_slice()
    }
}

/// The public half of a signing key pair, held as DER. It is a type of its own so
/// that it cannot stand where an encryption key is asked for.
pub struct SignPublicKey {
    der: Vec<u8>,
}

impl View for SignPublicKey {
    type V = Seq<u8>;

    closed spec fn view(&self) -> Seq<u8> {
        self.der@
    }
}

impl SignPublicKey {
    /// Parses a public key given in `key_format`.
    pub fn new(public_key: &[u8], key_format: KeyFormat) -> (r: Result<Self, CryptError>)
        ensures
            match r {
                Ok(k) => !too_long_to_parse(public_key@, key_format) && parsed_public(public_key@, key_format) == Some(k@),
                Err(e) => {
                    ||| (e is InputTooLarge && too_long_to_parse(public_key@, key_format))
                    ||| (e is PublicKey && !too_long_to_parse(public_key@, key_format) && parsed_public(public_key@, key_format) is None)
                },
            },
    {
        match parse_public(public_key, key_format) {
            Ok(der) => Ok(SignPublicKey { der }),
            Err(e) => Err(e),
        }
    }

    /// The key as DER (SubjectPublicKeyInfo).
    pub fn get_key(&self) -> (r: &[u8])
        ensures
            r@ == self@,
    {
        self.der.as_slice()
    }
}

/// Both public halves of an engine's identity: the key that others encrypt for and
/// the key that checks its signatures.
pub struct PublicKey {
    rsa_public_key: RsaPublicKey,
    sign_public_key: SignPublicKey,
}

impl PublicKey {
    pub fn new(rsa_public_key: RsaPublicKey, sign_public_key: SignPublicKey) -> (r: Self)
        ensures
            r.rsa_view() == rsa_public_key@,
            r.sign_view() == sign_public_key@,
    {
        PublicKey { rsa_public_key, sign_public_key }
    }

    pub closed spec fn rsa_view(&self) -> Seq<u8> {
        self.rsa_public_key@
    }

    pub closed spec fn sign_view(&self) -> Seq<u8> {
        self.sign_public_key@
    }

    pub fn get_rsa_key(&self) -> (r: &RsaPublicKey)
        ensures
            r@ == self.rsa_view(),
    {
        &self.rsa_public_key
    }

    pub fn get_sign_key(&self) -> (r: &SignPublicKey)
        ensures
            r@ == self.sign_view(),
    {
        &self.sign_public_key
    }
}

/// An RSA-OAEP ciphertext.
pub struct RsaCiphertext {
    ciphertext: Vec<u8>,
}

impl View for RsaCiphertext {
    type V = Seq<u8>;

    closed spec fn view(&self) -> Seq<u8> {
        self.ciphertext@
    }
}

impl RsaCiphertext {
    pub fn new(ciphertext: Vec<u8>) -> (r: Self)
        ensures
            r@ == ciphertext@,
    {
        RsaCiphertext { ciphertext }
    }

    /// Consumes the ciphertext and returns its bytes.
    pub fn get_components(self) -> (r: Vec<u8>)
        ensures
            r@ == self@,
    {
        self.ciphertext
    }

    pub fn as_bytes(&self) -> (r: &[u8])
        ensures
            r@ == self@,
    {
        self.ciphertext.as_slice()
    }
}

/// A signature made by a signing key pair.
pub struct Signature {
    signature: Vec<u8>,
}

impl View for Signature {
    type V = Seq<u8>;

    closed spec fn view(&self) -> Seq<u8> {
        self.signature@
    }
}

impl Signature {
    pub fn new(signature: Vec<u8>) -> (r: Self)
        ensures
            r@ == signature@,
    {
        Signature { signature }
    }

    /// Consumes the signature and returns its bytes.
    pub fn get_signature(self) -> (r: Vec<u8>)
        ensures
            r@ == self@,
    {
        self.signature
    }
}

/// Checks a private key and derives its public half: succeeds exactly when the key
/// is consistent and its public half can be exported.
pub fn key_pair_from_private(private_der: Vec<u8>) -> (r: Result<(Vec<u8>, Vec<u8>), CryptError>)
    ensures
        (r is Ok) <==> (rsa_check_key(private_der@) && rsa_public_of(private_der@) is Some),
        r matches Ok((k, p)) ==> k@ == private_der@ && rsa_public_of(private_der@) == Some(p@),
        r matches Err(CryptError::KeyGenerationError) ==> !rsa_check_key(private_der@),
        r is Err ==> r->Err_0 is RsaError || r->Err_0 is KeyGenerationError,
{
    match check_private_der(private_der.as_slice()) {
        Ok(true) => {},
        Ok(false) => return Err(CryptError::KeyGenerationError),
        Err(e) => return Err(CryptError::RsaError(e)),
    }
    match public_der_of(private_der.as_slice()) {
        Ok(public_der) => Ok((private_der, public_der)),
        Err(e) => Err(CryptError::RsaError(e)),
    }
}

/// Generates a consistent private key of `bits` bits and its public half.
fn generate_key_pair(bits: u32) -> (r: Result<(Vec<u8>, Vec<u8>), CryptError>)
    ensures
        r is Ok ==> holds_private_for(r->Ok_0.0@, r->Ok_0.1@),
        r is Ok ==> rsa_size(r->Ok_0.1@) == Some(bytes_for_bits(bits)),
        r is Err ==> r->Err_0 is RsaError || r->Err_0 is KeyGenerationError,
{
    let private_der = match generate_private_der(bits) {
        Ok(k) => k,
        Err(e) => return Err(CryptError::RsaError(e)),
    };
    key_pair_from_private(private_der)
}

/// Two distinct RSA key pairs: one to unwrap what others encrypt for this side, one
/// to sign.
pub struct RSA {
    keys: Vec<u8>,
    public_key: Vec<u8>,
    sign_keys: Vec<u8>,
    sign_public_key: Vec<u8>,
}

impl RSA {
    /// The private encryption key, as DER.
    pub closed spec fn private_view(&self) -> Seq<u8> {
        self.keys@
    }

    /// The public encryption key, as DER.
    pub closed spec fn public_view(&self) -> Seq<u8> {
        self.public_key@
    }

    /// The private signing key, as DER.
    pub closed spec fn sign_private_view(&self) -> Seq<u8> {
        self.sign_keys@
    }

    /// The public signing key, as DER.
    pub closed spec fn sign_public_view(&self) -> Seq<u8> {
        self.sign_public_key@
    }

    /// Each private key is consistent and matches the public key kept beside it.
    pub open spec fn wf(&self) -> bool {
        &&& holds_private_for(self.private_view(), self.public_view())
        &&& holds_private_for(self.sign_private_view(), self.sign_public_view())
    }

    /// Generates both key pairs with `bits` bits each. Any failure of generation or
    /// of the consistency check is a `KeyGenerationError`.
    pub fn new(bits: u32) -> (r: Result<Self, CryptError>)
        ensures
            r is Ok ==> r->Ok_0.wf(),
            r is Ok ==> rsa_size(r->Ok_0.public_view()) == Some(bytes_for_bits(bits)),
            r is Ok ==> rsa_size(r->Ok_0.sign_public_view()) == Some(bytes_for_bits(bits)),
            r is Err ==> r->Err_0 is KeyGenerationError,
    {
        let (keys, public_key) = match generate_key_pair(bits) {
            Ok(p) => p,
            Err(_) => return Err(CryptError::KeyGenerationError),
        };
        let (sign_keys, sign_public_key) = match generate_key_pair(bits) {
            Ok(p) => p,
            Err(_) => return Err(CryptError::KeyGenerationError),
        };
        Ok(RSA { keys, public_key, sign_keys, sign_public_key })
    }

    pub fn get_public_rsa_key(&self) -> (r: RsaPublicKey)
        ensures
            r@ == self.public_view(),
    {
        RsaPublicKey { der: self.public_key.clone() }
    }

    pub fn get_public_sign_key(&self) -> (r: SignPublicKey)
        ensures
            r@ == self.sign_public_view(),
    {
        SignPublicKey { der: self.sign_public_key.clone() }
    }

    pub fn get_public_keys(&self) -> (r: PublicKey)
        ensures
            r.rsa_view() == self.public_view(),
            r.sign_view() == self.sign_public_view(),
    {
        PublicKey::new(self.get_public_rsa_key(), self.get_public_sign_key())
    }

    /// Encrypts `data` for the holder of the private half of `receiver_public_key`.
    pub fn encrypt(&self, receiver_public_key: &RsaPublicKey, data: &[u8]) -> (r: Result<RsaCiphertext, CryptError>)
        ensures
            match r {
                Ok(c) => {
                    &&& c@.len() <= MAX_INPUT_LEN
                    &&& rsa_size(receiver_public_key@) == Some(c@.len() as u32)
                    &&& oaep_decrypts_to(receiver_public_key@, c@, data@)
                },
                Err(e) => (e is InputTooLarge && data@.len() > MAX_INPUT_LEN) || e is RsaError,
            },
            data@.len() > MAX_INPUT_LEN ==> r matches Err(CryptError::InputTooLarge),
            data@.len() <= MAX_INPUT_LEN && (match rsa_size(receiver_public_key@) {
                Some(k) => data@.len() > oaep_capacity(k),
                None => true,
            }) ==> r matches Err(CryptError::RsaError(_)),
    {
        if data.len() > MAX_INPUT_LEN {
            return Err(CryptError::InputTooLarge);
        }
        match oaep_encrypt(receiver_public_key.der.as_slice(), data) {
            Ok(ciphertext) => Ok(RsaCiphertext { ciphertext }),
            Err(e) => Err(CryptError::RsaError(e)),
        }
    }

    /// Decrypts a ciphertext made for this side's encryption key.
    pub fn decrypt(&self, rsa_ciphertext: RsaCiphertext) -> (r: Result<Vec<u8>, CryptError>)
        ensures
            match r {
                Ok(d) => rsa_oaep_decrypt(self.private_view(), rsa_ciphertext@) == Some(d@),
                Err(e) => {
                    ||| (e is InputTooLarge && rsa_ciphertext@.len() > MAX_INPUT_LEN)
                    ||| (e is RsaError && rsa_oaep_decrypt(self.private_view(), rsa_ciphertext@) is None)
                },
            },
            rsa_ciphertext@.len() <= MAX_INPUT_LEN ==> (r is Ok <==> rsa_oaep_decrypt(self.private_view(), rsa_ciphertext@) is Some),
    {
        if rsa_ciphertext.ciphertext.len() > MAX_INPUT_LEN {
            return Err(CryptError::InputTooLarge);
        }
        match oaep_decrypt(self.keys.as_slice(), rsa_ciphertext.ciphertext.as_slice()) {
            Ok(d) => Ok(d),
            Err(e) => Err(CryptError::RsaError(e)),
        }
    }

    /// Signs `data` with the signing key (SHA-512, PKCS#1 v1.5).
    pub fn sign(&self, data: &[u8]) -> (r: Result<Signature, CryptError>)
        requires
            self.wf(),
        ensures
            match r {
                Ok(s) => {
                    &&& rsa_sha512_sign(self.sign_private_view(), data@) == Some(s@)
                    &&& rsa_sha512_verify(self.sign_public_view(), data@, s@) == Some(true)
                    &&& rsa_size(self.sign_public_view()) == Some(s@.len() as u32)
                },
                Err(e) => e is SignError && rsa_sha512_sign(self.sign_private_view(), data@) is None,
            },
    {
        match sign_sha512(self.sign_keys.as_slice(), data) {
            Ok(signature) => {
                assert(holds_private_for(self.sign_private_view(), self.sign_public_view()));
                Ok(Signature { signature })
            },
            Err(e) => Err(CryptError::SignError(e)),
        }
    }

    /// Checks `signature` over `data` against `public_key`. A signature that does not
    /// match gives `Ok(false)`; only a malformed key or signature gives an error.
    pub fn verify(&self, public_key: &SignPublicKey, data: &[u8], signature: Signature) -> (r: Result<bool, CryptError>)
        ensures
            match r {
                Ok(b) => rsa_sha512_verify(public_key@, data@, signature@) == Some(b),
                Err(e) => e is SignError && rsa_sha512_verify(public_key@, data@, signature@) is None,
            },
            is_key_pair_public(public_key@) && rsa_size(public_key@) == Some(signature@.len() as u32) ==> r is Ok,
    {
        match verify_sha512(public_key.der.as_slice(), data, signature.signature.as_slice()) {
            Ok(b) => Ok(b),
            Err(e) => Err(CryptError::SignError(e)),
        }
    }
}

} // verus!
