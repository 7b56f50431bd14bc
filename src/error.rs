use vstd::prelude::*;

verus! {

/// OpenSSL's error type, carried inside [`CryptError`] as the cause of a failure.
#[verifier::external_type_specification]
#[verifier::external_body]
pub struct ExErrorStack(openssl::error::ErrorStack);

/// std's I/O error, carried inside [`NetError`] as the cause of a transport failure.
#[verifier::external_type_specification]
#[verifier::external_body]
pub struct ExIoError(std::io::Error);

/// Failures of the cryptographic engine.
#[derive(Debug)]
pub enum CryptError {
    /// Asymmetric encryption, decryption or key generation failed.
    RsaError(openssl::error::ErrorStack),
    /// Authenticated symmetric encryption or decryption failed.
    AesError(openssl::error::ErrorStack),
    /// Signing or signature verification failed.
    SignError(openssl::error::ErrorStack),
    /// A public key could not be parsed or exported.
    PublicKey(openssl::error::ErrorStack),
    /// The random number generator failed.
    RandError(openssl::error::ErrorStack),
    /// Generating a key pair or the initial symmetric key failed, or a generated key
    /// pair did not pass its consistency check.
    KeyGenerationError,
    /// An input is longer than the primitives accept (`i32::MAX` bytes).
    InputTooLarge,
    /// A recovered symmetric key does not have the length of a symmetric key.
    InvalidKeyLength,
}

/// Failures of the transport layer.
#[derive(Debug)]
pub enum NetError {
    /// Binding or accepting on the listening socket failed.
    ListenerError(std::io::Error),
    /// Connection-level I/O failed, including a stream that ended early.
    TransportError(std::io::Error),
    /// A record or its metadata is malformed or truncated.
    SerializationError,
    /// A cryptographic operation on a record failed.
    CryptError(CryptError),
    /// The operation was attempted on a closed stream.
    StreamNotAlive,
}

} // verus!
