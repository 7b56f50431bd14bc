//! The record protocol: the metadata that travels with each payload, and the
//! binary layout of a sealed record.
use vstd::prelude::*;

use crate::aes::AesCiphertext;
use crate::crypt_lib::{CiphertextData, CryptLib, RecordView};
use crate::error::NetError;
use crate::rsa::{RsaCiphertext, RsaPublicKey};
use crate::time::get_unix_epoch_timestamp;
use crate::wire::{
    append, lemma_fixed_canonical, lemma_int_bytes, lemma_length_prefixed_canonical,
    lemma_parse_fixed, lemma_parse_length_prefixed, length_prefixed, parse_fixed,
    parse_length_prefixed, put_length_prefixed, put_u128, put_u32, read_u128, read_u32,
    take_fixed, take_length_prefixed, to_array16, u128_bytes, u128_of, u32_bytes, u32_of,
};

verus! {

/// What a record asks of its receiver.
#[derive(Clone, Copy, Debug, PartialEq, Eq, Structural)]
pub enum Action {
    /// Deliver the payload to the application.
    Transmit,
    /// Liveness probe; carries no payload for the application.
    Ping,
    /// The sender closes the stream.
    Close,
}

/// The tag of each action on the wire.
pub open spec fn action_index(a: Action) -> u32 {
    match a {
        Action::Transmit => 0,
        Action::Ping => 1,
        Action::Close => 2,
    }
}

pub open spec fn action_of(i: u32) -> Option<Action> {
    if i == 0 {
        Some(Action::Transmit)
    } else if i == 1 {
        Some(Action::Ping)
    } else if i == 2 {
        Some(Action::Close)
    } else {
        None
    }
}

fn action_to_index(a: Action) -> (r: u32)
    ensures
        r == action_index(a),
{
    match a {
        Action::Transmit => 0,
        Action::Ping => 1,
        Action::Close => 2,
    }
}

fn index_to_action(i: u32) -> (r: Option<Action>)
    ensures
        r == action_of(i),
{
    if i == 0 {
        Some(Action::Transmit)
    } else if i == 1 {
        Some(Action::Ping)
    } else if i == 2 {
        Some(Action::Close)
    } else {
        None
    }
}

/// The metadata of a record, as plain values.
pub ghost struct MetadataView {
    /// Milliseconds since the Unix epoch when the record was made.
    pub timestamp: u128,
    pub action: Action,
    /// The sender's public encryption key, as DER.
    pub sender_public_key: Seq<u8>,
}

/// The metadata layout: the timestamp as 16 little-endian bytes, the action's tag
/// as 4, then the sender's key, length-prefixed.
pub open spec fn metadata_bytes(m: MetadataView) -> Seq<u8> {
    u128_bytes(m.timestamp) + (u32_bytes(action_index(m.action)) + length_prefixed(m.sender_public_key))
}

/// Reads metadata that fills `s` exactly.
pub open spec fn parse_metadata(s: Seq<u8>) -> Option<MetadataView> {
    match parse_fixed(s, 16) {
        None => None,
        Some((t, r1)) => match parse_fixed(r1, 4) {
            None => None,
            Some((a, r2)) => match action_of(u32_of(a)) {
                None => None,
                Some(action) => match parse_length_prefixed(r2) {
                    None => None,
                    Some((k, r3)) => if r3.len() == 0 {
                        Some(MetadataView { timestamp: u128_of(t), action, sender_public_key: k })
                    } else {
                        None
                    },
                },
            },
        },
    }
}

/// The record layout: the wrapped key, the ciphertext, the nonce, the associated
/// data and the tag, in that order; the three of variable length are
/// length-prefixed.
pub open spec fn record_bytes(v: RecordView) -> Seq<u8> {
    length_prefixed(v.wrapped_key) + (length_prefixed(v.ciphertext) + (v.nonce + (length_prefixed(
        v.associated_data,
    ) + v.tag)))
}

/// Reads a record that fills `s` exactly.
pub open spec fn parse_record(s: Seq<u8>) -> Option<RecordView> {
    match parse_length_prefixed(s) {
        None => None,
        Some((w, r1)) => match parse_length_prefixed(r1) {
            None => None,
            Some((c, r2)) => match parse_fixed(r2, 16) {
                None => None,
                Some((n, r3)) => match parse_length_prefixed(r3) {
                    None => None,
                    Some((a, r4)) => match parse_fixed(r4, 16) {
                        None => None,
                        Some((t, r5)) => if r5.len() == 0 {
                            Some(
                                RecordView {
                                    wrapped_key: w,
                                    ciphertext: c,
                                    nonce: n,
                                    associated_data: a,
                                    tag: t,
                                },
                            )
                        } else {
                            None
                        },
                    },
                },
            },
        },
    }
}

/// Reading written metadata gives it back.
pub proof fn lemma_metadata_round_trip(m: MetadataView)
    requires
        m.sender_public_key.len() <= u64::MAX,
    ensures
        parse_metadata(metadata_bytes(m)) == Some(m),
{
    lemma_int_bytes();
    let k = length_prefixed(m.sender_public_key);
    let a = u32_bytes(action_index(m.action));
    lemma_parse_fixed(u128_bytes(m.timestamp), a + k);
    lemma_parse_fixed(a, k);
    lemma_parse_length_prefixed(m.sender_public_key, Seq::empty());
    assert(k + Seq::<u8>::empty() =~= k);
}

/// Metadata is read only from its own layout: what reads as `m` is `m` written.
pub proof fn lemma_metadata_canonical(s: Seq<u8>)
    ensures
        parse_metadata(s) matches Some(m) ==> metadata_bytes(m) == s,
{
    lemma_int_bytes();
    if let Some(m) = parse_metadata(s) {
        lemma_fixed_canonical(s, 16);
        let (t, r1) = parse_fixed(s, 16)->Some_0;
        lemma_fixed_canonical(r1, 4);
        let (a, r2) = parse_fixed(r1, 4)->Some_0;
        lemma_length_prefixed_canonical(r2);
        let (k, r3) = parse_length_prefixed(r2)->Some_0;
        vstd::bytes::lemma_auto_spec_u128_to_from_le_bytes();
        vstd::bytes::lemma_auto_spec_u32_to_from_le_bytes();
        assert(u128_bytes(u128_of(t)) == t);
        assert(u32_bytes(u32_of(a)) == a);
        assert(action_index(m.action) == u32_of(a));
        assert(r2 =~= length_prefixed(k));
        assert(s =~= metadata_bytes(m));
    }
}

/// Reading a written record gives it back.
pub proof fn lemma_record_round_trip(v: RecordView)
    requires
        v.nonce.len() == 16,
        v.tag.len() == 16,
        v.wrapped_key.len() <= u64::MAX,
        v.ciphertext.len() <= u64::MAX,
        v.associated_data.len() <= u64::MAX,
    ensures
        parse_record(record_bytes(v)) == Some(v),
{
    let r4 = v.tag;
    let r3 = length_prefixed(v.associated_data) + r4;
    let r2 = v.nonce + r3;
    let r1 = length_prefixed(v.ciphertext) + r2;
    lemma_parse_length_prefixed(v.wrapped_key, r1);
    lemma_parse_length_prefixed(v.ciphertext, r2);
    lemma_parse_fixed(v.nonce, r3);
    lemma_parse_length_prefixed(v.associated_data, r4);
    lemma_parse_fixed(v.tag, Seq::empty());
    assert(v.tag + Seq::<u8>::empty() =~= v.tag);
}

/// A record is read only from its own layout: what reads as `v` is `v` written.
pub proof fn lemma_record_canonical(s: Seq<u8>)
    ensures
        parse_record(s) matches Some(v) ==> record_bytes(v) == s,
{
    if let Some(v) = parse_record(s) {
        lemma_length_prefixed_canonical(s);
        let (w, r1) = parse_length_prefixed(s)->Some_0;
        lemma_length_prefixed_canonical(r1);
        let (c, r2) = parse_length_prefixed(r1)->Some_0;
        lemma_fixed_canonical(r2, 16);
        let (n, r3) = parse_fixed(r2, 16)->Some_0;
        lemma_length_prefixed_canonical(r3);
        let (a, r4) = parse_length_prefixed(r3)->Some_0;
        lemma_fixed_canonical(r4, 16);
        let (t, r5) = parse_fixed(r4, 16)->Some_0;
        assert(r4 =~= t);
        assert(s =~= record_bytes(v));
    }
}

/// Writes a record in the record layout.
pub fn encode_record(c: &CiphertextData) -> (r: Vec<u8>)
    ensures
        r@ == record_bytes(c@),
{
    let mut out: Vec<u8> = Vec::new();
    put_length_prefixed(&mut out, c.rsa_ciphertext.as_bytes());
    put_length_prefixed(&mut out, c.aes_ciphertext.ciphertext.as_slice());
    append(&mut out, c.aes_ciphertext.iv.as_slice());
    put_length_prefixed(&mut out, c.aes_ciphertext.aad.as_slice());
    append(&mut out, c.aes_ciphertext.tag.as_slice());
    assert(out@ =~= record_bytes(c@));
    out
}

/// Reads a record that fills `bytes` exactly.
pub fn decode_record(bytes: &[u8]) -> (r: Option<CiphertextData>)
    ensures
        match r {
            Some(c) => parse_record(bytes@) == Some(c@),
            None => parse_record(bytes@) is None,
        },
{
    let (wrapped, r1) = match take_length_prefixed(bytes) {
        Some(p) => p,
        None => return None,
    };
    let (ciphertext, r2) = match take_length_prefixed(r1) {
        Some(p) => p,
        None => return None,
    };
    let (nonce, r3) = match take_fixed(r2, 16) {
        Some(p) => p,
        None => return None,
    };
    let (aad, r4) = match take_length_prefixed(r3) {
        Some(p) => p,
        None => return None,
    };
    let (tag, r5) = match take_fixed(r4, 16) {
        Some(p) => p,
        None => return None,
    };
    if r5.len() != 0 {
        return None;
    }
    let aes_ciphertext = AesCiphertext::new(ciphertext, to_array16(nonce), aad, to_array16(tag));
    Some(CiphertextData::new(RsaCiphertext::new(wrapped), aes_ciphertext))
}

/// The metadata of a record.
pub struct ProtocolData {
    pub timestamp: u128,
    pub action: Action,
    /// The sender's public encryption key, as DER.
    pub sender_public_key: Vec<u8>,
}

impl View for ProtocolData {
    type V = MetadataView;

    open spec fn view(&self) -> MetadataView {
        MetadataView {
            timestamp: self.timestamp,
            action: self.action,
            sender_public_key: self.sender_public_key@,
        }
    }
}

impl ProtocolData {
    /// The metadata of `protocol`.
    pub fn new(protocol: &Protocol) -> (r: Self)
        ensures
            r@ == protocol.metadata(),
    {
        ProtocolData {
            timestamp: protocol.timestamp,
            action: protocol.action,
            sender_public_key: protocol.sender_public_key.clone(),
        }
    }

    /// Writes the metadata in its layout.
    pub fn to_bytes(&self) -> (r: Vec<u8>)
        ensures
            r@ == metadata_bytes(self@),
    {
        let mut out: Vec<u8> = Vec::new();
        put_u128(&mut out, self.timestamp);
        put_u32(&mut out, action_to_index(self.action));
        put_length_prefixed(&mut out, self.sender_public_key.as_slice());
        assert(out@ =~= metadata_bytes(self@));
        out
    }

    /// Reads metadata that fills `bytes` exactly.
    pub fn from_bytes(bytes: &[u8]) -> (r: Result<Self, NetError>)
        ensures
            match r {
                Ok(m) => parse_metadata(bytes@) == Some(m@),
                Err(e) => e is SerializationError && parse_metadata(bytes@) is None,
            },
    {
        let (t, r1) = match take_fixed(bytes, 16) {
            Some(p) => p,
            None => return Err(NetError::SerializationError),
        };
        let (a, r2) = match take_fixed(r1, 4) {
            Some(p) => p,
            None => return Err(NetError::SerializationError),
        };
        let action = match index_to_action(read_u32(a)) {
            Some(action) => action,
            None => return Err(NetError::SerializationError),
        };
        let (key, r3) = match take_length_prefixed(r2) {
            Some(p) => p,
            None => return Err(NetError::SerializationError),
        };
        if r3.len() != 0 {
            return Err(NetError::SerializationError);
        }
        Ok(ProtocolData { timestamp: read_u128(t), action, sender_public_key: key })
    }
}

/// One decrypted protocol unit: its metadata and its payload.
pub struct Protocol {
    pub timestamp: u128,
    pub action: Action,
    /// The sender's public encryption key, as DER.
    pub sender_public_key: Vec<u8>,
    pub data: Vec<u8>,
}

/// `bytes` hold a record, in the record layout, that carries `key` wrapped for the
/// holder of `recipient_public` and seals `data` with `aad` bound to it.
pub open spec fn carries(bytes: Seq<u8>, recipient_public: Seq<u8>, key: Seq<u8>, data: Seq<u8>, aad: Seq<u8>) -> bool {
    match parse_record(bytes) {
        Some(v) => v.seals(recipient_public, key, data, aad),
        None => false,
    }
}

/// What the holder of `recipient_private` reads from `bytes`: the symmetric key it
/// recovers, the metadata and the payload.
pub open spec fn received(bytes: Seq<u8>, recipient_private: Seq<u8>) -> Option<(Seq<u8>, MetadataView, Seq<u8>)> {
    match parse_record(bytes) {
        None => None,
        Some(v) => match v.opened_by(recipient_private) {
            None => None,
            Some((key, data, aad)) => match parse_metadata(aad) {
                None => None,
                Some(m) => Some((key, m, data)),
            },
        },
    }
}

impl Protocol {
    pub open spec fn metadata(&self) -> MetadataView {
        MetadataView {
            timestamp: self.timestamp,
            action: self.action,
            sender_public_key: self.sender_public_key@,
        }
    }

    /// A unit with `action` and `data`, stamped with the current time and the public
    /// encryption key of `crypt_lib`.
    pub fn new(crypt_lib: &CryptLib, action: Action, data: Vec<u8>) -> (r: Self)
        ensures
            r.action == action,
            r.data@ == data@,
            r.sender_public_key@ == crypt_lib.public_view(),
    {
        let key = crypt_lib.get_public_rsa_key();
        Protocol {
            timestamp: get_unix_epoch_timestamp(),
            action,
            sender_public_key: crate::wire::to_vec(key.get_key()),
            data,
        }
    }

    /// Seals the payload with the metadata bound to it, for the holder of the private
    /// half of `receiver_public_key`, and writes the record in its layout.
    pub fn to_bytes(&self, crypt_lib: &CryptLib, receiver_public_key: &RsaPublicKey) -> (r: Result<Vec<u8>, NetError>)
        ensures
            match r {
                Ok(b) => carries(b@, receiver_public_key@, crypt_lib.key_view(), self.data@, metadata_bytes(self.metadata())),
                Err(e) => e is CryptError,
            },
    {
        let metadata = ProtocolData::new(self).to_bytes();
        let ciphertext = match crypt_lib.encrypt(receiver_public_key, self.data.as_slice(), metadata) {
            Ok(c) => c,
            Err(e) => return Err(NetError::CryptError(e)),
        };
        let bytes = encode_record(&ciphertext);
        proof {
            lemma_record_round_trip(ciphertext@);
        }
        Ok(bytes)
    }

    /// Reads a record, opens it with the private key of `crypt_lib` and reads its
    /// metadata. Opening it makes `crypt_lib` adopt the sender's symmetric key, even
    /// where the metadata then turns out malformed.
    pub fn from_bytes(bytes: &[u8], crypt_lib: &mut CryptLib) -> (r: Result<Self, NetError>)
        requires
            old(crypt_lib).wf(),
        ensures
            final(crypt_lib).wf(),
            final(crypt_lib).private_view() == old(crypt_lib).private_view(),
            final(crypt_lib).public_view() == old(crypt_lib).public_view(),
            final(crypt_lib).sign_private_view() == old(crypt_lib).sign_private_view(),
            final(crypt_lib).sign_public_view() == old(crypt_lib).sign_public_view(),
            match parse_record(bytes@) {
                None => r matches Err(NetError::SerializationError) && final(crypt_lib).key_view() == old(crypt_lib).key_view(),
                Some(v) => match v.opened_by(old(crypt_lib).private_view()) {
                    None => r matches Err(NetError::CryptError(_)) && final(crypt_lib).key_view() == old(crypt_lib).key_view(),
                    Some((key, data, aad)) => {
                        &&& final(crypt_lib).key_view() == key
                        &&& match parse_metadata(aad) {
                            None => r matches Err(NetError::SerializationError),
                            Some(m) => r is Ok && r->Ok_0.metadata() == m && r->Ok_0.data@ == data,
                        }
                    },
                },
            },
    {
        let ciphertext = match decode_record(bytes) {
            Some(c) => c,
            None => return Err(NetError::SerializationError),
        };
        let decrypted = match crypt_lib.decrypt(ciphertext) {
            Ok(d) => d,
            Err(e) => return Err(NetError::CryptError(e)),
        };
        let (data, aad) = decrypted.get_components();
        let metadata = match ProtocolData::from_bytes(aad.as_slice()) {
            Ok(m) => m,
            Err(e) => return Err(e),
        };
        Ok(Protocol {
            timestamp: metadata.timestamp,
            action: metadata.action,
            sender_public_key: metadata.sender_public_key,
            data,
        })
    }
}

/// Round trip through the wire: bytes that an engine wrote for the public key of
/// `receiver`, under its symmetric key `key`, with metadata `m` and payload `data`,
/// are read by `receiver` as exactly `m` and `data`, and hand `key` over to it.
pub proof fn lemma_wire_round_trip(bytes: Seq<u8>, receiver: CryptLib, key: Seq<u8>, m: MetadataView, data: Seq<u8>)
    requires
        receiver.wf(),
        key.len() == 32,
        m.sender_public_key.len() <= u64::MAX,
        carries(bytes, receiver.public_view(), key, data, metadata_bytes(m)),
    ensures
        received(bytes, receiver.private_view()) == Some((key, m, data)),
{
    let v = parse_record(bytes)->Some_0;
    crate::crypt_lib::lemma_round_trip(v, receiver, key, data, metadata_bytes(m));
    lemma_metadata_round_trip(m);
}

} // verus!
