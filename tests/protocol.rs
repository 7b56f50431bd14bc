use networking_lib::{
    decode_record, encode_record, frame, Action, CiphertextData, CryptLib, FrameReader,
    NetError, Protocol, ProtocolData,
};

fn frame_payload(framed: &[u8]) -> Vec<u8> {
    let mut reader = FrameReader::new();
    let mut pos = 0;
    loop {
        let n = reader.wanted().min(framed.len() - pos);
        reader.feed(&framed[pos..pos + n]);
        pos += n;
        if let Some(p) = reader.take() {
            return p;
        }
    }
}

#[test]
fn metadata_layout() {
    let m = ProtocolData { timestamp: 0x0102, action: Action::Ping, sender_public_key: vec![9, 8, 7] };
    let bytes = m.to_bytes();
    let mut expected = Vec::new();
    expected.extend_from_slice(&0x0102u128.to_le_bytes());
    expected.extend_from_slice(&1u32.to_le_bytes());
    expected.extend_from_slice(&3u64.to_le_bytes());
    expected.extend_from_slice(&[9, 8, 7]);
    assert_eq!(bytes, expected);

    let back = ProtocolData::from_bytes(&bytes).unwrap();
    assert_eq!(back.timestamp, 0x0102);
    assert_eq!(back.action, Action::Ping);
    assert_eq!(back.sender_public_key, vec![9, 8, 7]);
}

#[test]
fn metadata_layout_matches_bincode() {
    for (action, index) in [(Action::Transmit, 0u32), (Action::Ping, 1), (Action::Close, 2)] {
        let m = ProtocolData { timestamp: 1_700_000_000_000, action, sender_public_key: vec![1, 2, 3, 4] };
        let expected = bincode::serialize(&(1_700_000_000_000u128, index, vec![1u8, 2, 3, 4])).unwrap();
        assert_eq!(m.to_bytes(), expected);
    }
}

#[test]
fn malformed_metadata_is_rejected() {
    let good = ProtocolData { timestamp: 5, action: Action::Close, sender_public_key: vec![1] }.to_bytes();
    assert!(matches!(ProtocolData::from_bytes(&good[..good.len() - 1]), Err(NetError::SerializationError)));
    let mut trailing = good.clone();
    trailing.push(0);
    assert!(matches!(ProtocolData::from_bytes(&trailing), Err(NetError::SerializationError)));
    let mut bad_action = good.clone();
    bad_action[16] = 3;
    assert!(matches!(ProtocolData::from_bytes(&bad_action), Err(NetError::SerializationError)));
    assert!(matches!(ProtocolData::from_bytes(&[]), Err(NetError::SerializationError)));
}

#[test]
fn record_layout_round_trip() {
    let a = CryptLib::new(2048).unwrap();
    let record = a.encrypt(&a.get_public_rsa_key(), b"payload", b"aad".to_vec()).unwrap();
    let bytes = encode_record(&record);

    let wrapped = record.rsa_ciphertext.as_bytes().to_vec();
    let expected = bincode::serialize(&(
        wrapped.clone(),
        record.aes_ciphertext.ciphertext.clone(),
        record.aes_ciphertext.iv,
        record.aes_ciphertext.aad.clone(),
        record.aes_ciphertext.tag,
    ))
    .unwrap();
    assert_eq!(bytes, expected);

    let back: CiphertextData = decode_record(&bytes).unwrap();
    assert_eq!(back.rsa_ciphertext.as_bytes(), wrapped.as_slice());
    assert_eq!(back.aes_ciphertext.ciphertext, record.aes_ciphertext.ciphertext);
    assert_eq!(back.aes_ciphertext.iv, record.aes_ciphertext.iv);
    assert_eq!(back.aes_ciphertext.aad, b"aad".to_vec());
    assert_eq!(back.aes_ciphertext.tag, record.aes_ciphertext.tag);

    assert!(decode_record(&bytes[..bytes.len() - 1]).is_none());
    let mut longer = bytes.clone();
    longer.push(1);
    assert!(decode_record(&longer).is_none());
    assert!(decode_record(&[0xff; 8]).is_none());
}

#[test]
fn protocol_round_trip() {
    let a = CryptLib::new(2048).unwrap();
    let mut b = CryptLib::new(2048).unwrap();
    let p = Protocol::new(&a, Action::Transmit, b"hello".to_vec());
    let bytes = p.to_bytes(&a, &b.get_public_rsa_key()).unwrap();
    let q = Protocol::from_bytes(&bytes, &mut b).unwrap();
    assert_eq!(q.action, Action::Transmit);
    assert_eq!(q.data, b"hello".to_vec());
    assert_eq!(q.timestamp, p.timestamp);
    assert_eq!(q.sender_public_key, a.get_public_rsa_key().get_key().to_vec());
}

#[test]
fn garbage_record_is_a_serialization_error() {
    let mut b = CryptLib::new(2048).unwrap();
    assert!(matches!(Protocol::from_bytes(b"garbage", &mut b), Err(NetError::SerializationError)));
}

#[test]
fn framed_record_round_trip() {
    let a = CryptLib::new(2048).unwrap();
    let mut b = CryptLib::new(2048).unwrap();
    let p = Protocol::new(&a, Action::Ping, Vec::new());
    let bytes = p.to_bytes(&a, &b.get_public_rsa_key()).unwrap();
    let framed = frame(&bytes);
    let payload = frame_payload(&framed);
    assert_eq!(payload, bytes);
    let q = Protocol::from_bytes(&payload, &mut b).unwrap();
    assert_eq!(q.action, Action::Ping);
    assert!(q.data.is_empty());
}

#[test]
fn timestamp_is_recent() {
    let t = networking_lib::get_unix_epoch_timestamp();
    assert!(t > 1_600_000_000_000);
    let r = networking_lib::Response::new(5u8);
    assert_eq!(r.data, 5);
    assert!(r.time_stamp >= t);
    let fixed = networking_lib::Response::with_timestamp("x", 42);
    assert_eq!(fixed.time_stamp, 42);
    assert_eq!(fixed.data, "x");
}
