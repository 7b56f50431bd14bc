//! Secure peer-to-peer record transport: hybrid RSA/AES-GCM encryption, a
//! length-prefixed wire format, per-connection stream state and a registry of
//! peers.
pub mod aes;
pub mod crypt_lib;
pub mod error;
pub mod framing;
pub mod protocol;
pub mod registry;
pub mod response;
pub mod rsa;
pub mod stream;
pub mod time;
pub mod wire;

pub use aes::{AesCiphertext, AesDecrypted, AesKey, AES};
pub use crypt_lib::{CiphertextData, CryptLib};
pub use error::{CryptError, NetError};
pub use framing::{frame, FrameReader};
pub use protocol::{decode_record, encode_record, Action, Protocol, ProtocolData};
pub use registry::{collect_errors, ConnectionRegistry};
pub use response::Response;
pub use rsa::{KeyFormat, PublicKey, RsaCiphertext, RsaPublicKey, SignPublicKey, Signature, RSA};
pub use stream::{Packet, StreamState};
pub use time::get_unix_epoch_timestamp;
