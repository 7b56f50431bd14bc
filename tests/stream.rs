use networking_lib::stream::key_announcement;
use networking_lib::{
    collect_errors, CryptError, Action, ConnectionRegistry, CryptLib, FrameReader, NetError, Packet,
    StreamState,
};

fn payload_of_frame(framed: &[u8]) -> Vec<u8> {
    let mut reader = FrameReader::new();
    let mut pos = 0;
    loop {
        let n = reader.wanted().min(framed.len() - pos);
        reader.feed(&framed[pos..pos + n]);
        pos += n;
        if let Some(p) = reader.take() {
            return p;
        }
    }
}

/// Two engines and a stream state on each side, built from the key announcements
/// that the two sides exchange first.
fn pair() -> (CryptLib, StreamState, CryptLib, StreamState) {
    let a = CryptLib::new(2048).unwrap();
    let b = CryptLib::new(2048).unwrap();
    let a_side = StreamState::from_announcement(&payload_of_frame(&key_announcement(&b))).unwrap();
    let b_side = StreamState::from_announcement(&payload_of_frame(&key_announcement(&a))).unwrap();
    (a, a_side, b, b_side)
}

#[test]
fn queue_ordering() {
    let (a, a_side, mut b, mut b_side) = pair();
    for data in [b"A".to_vec(), b"B".to_vec(), b"C".to_vec()] {
        let f = a_side.send(&a, data).unwrap();
        assert_eq!(b_side.inbound(&mut b, &payload_of_frame(&f)).unwrap(), Action::Transmit);
    }
    for expected in [b"A".to_vec(), b"B".to_vec(), b"C".to_vec()] {
        let p = b_side.read().unwrap();
        assert_eq!(p.action, Action::Transmit);
        assert_eq!(p.data, expected);
    }
    assert!(b_side.read().is_none());
}

#[test]
fn ping_and_close_deliver_nothing() {
    let (a, a_side, mut b, mut b_side) = pair();
    let ping = a_side.ping(&a).unwrap();
    assert_eq!(b_side.inbound(&mut b, &payload_of_frame(&ping)).unwrap(), Action::Ping);
    assert!(b_side.read().is_none());
    assert!(b_side.is_stream_alive());

    let mut a_side = a_side;
    let close = a_side.close(&a).unwrap().unwrap();
    assert!(!a_side.is_stream_alive());
    assert_eq!(b_side.inbound(&mut b, &payload_of_frame(&close)).unwrap(), Action::Close);
    assert!(!b_side.is_stream_alive());
    assert!(b_side.read().is_none());
}

#[test]
fn idempotent_close() {
    let (a, mut a_side, _b, _b_side) = pair();
    assert!(a_side.close(&a).unwrap().is_some());
    assert!(a_side.close(&a).unwrap().is_none());
    assert!(!a_side.is_stream_alive());

    let mut registry: ConnectionRegistry<StreamState> = ConnectionRegistry::new();
    let peer = CryptLib::new(1024).unwrap();
    registry.insert("10.0.0.1".to_string(), StreamState::new(peer.get_public_rsa_key()));
    let first = registry.clear();
    assert_eq!(first.len(), 1);
    let second = registry.clear();
    assert!(second.is_empty());
    assert!(registry.snapshot().is_empty());
}

#[test]
fn closed_stream_refuses_to_send() {
    let (a, mut a_side, _b, _b_side) = pair();
    a_side.transport_failed();
    assert!(matches!(a_side.send(&a, b"x".to_vec()), Err(NetError::StreamNotAlive)));
    assert!(matches!(a_side.ping(&a), Err(NetError::StreamNotAlive)));
}

#[test]
fn malformed_announcement_is_rejected() {
    assert!(matches!(
        StreamState::from_announcement(b"not a key"),
        Err(NetError::CryptError(CryptError::PublicKey(_)))
    ));
    let a = CryptLib::new(2048).unwrap();
    let announcement = key_announcement(&a);
    assert_eq!(&announcement[..8], &((announcement.len() - 8) as u64).to_le_bytes());
    assert_eq!(&announcement[8..], a.get_public_rsa_key().get_key());
}

#[test]
fn unreadable_record_closes_the_stream() {
    let (_a, _a_side, mut b, mut b_side) = pair();
    assert!(matches!(b_side.inbound(&mut b, b"not a record"), Err(NetError::SerializationError)));
    assert!(!b_side.is_stream_alive());
}

#[test]
fn broadcast_partial_failure() {
    let me = CryptLib::new(2048).unwrap();
    let peers: Vec<CryptLib> = (0..3).map(|_| CryptLib::new(2048).unwrap()).collect();
    let mut registry: ConnectionRegistry<StreamState> = ConnectionRegistry::new();
    for (i, p) in peers.iter().enumerate() {
        let retired = registry.insert(format!("10.0.0.{}", i + 1), StreamState::new(p.get_public_rsa_key()));
        assert!(retired.is_none());
    }
    // The second peer's stream is already closed.
    let mut closed = StreamState::new(peers[1].get_public_rsa_key());
    closed.transport_failed();
    assert!(registry.insert("10.0.0.2".to_string(), closed).is_some());

    let targets = registry.targets(&None);
    assert_eq!(targets, vec![0, 1, 2]);
    let mut delivered = Vec::new();
    let mut results = Vec::new();
    for i in targets {
        match registry.stream(i).send(&me, b"msg".to_vec()) {
            Ok(f) => {
                delivered.push(registry.address(i).clone());
                assert!(!f.is_empty());
                results.push(Ok(()));
            }
            Err(e) => results.push(Err(e)),
        }
    }
    assert_eq!(delivered, vec!["10.0.0.1".to_string(), "10.0.0.3".to_string()]);
    let errors = collect_errors(results).unwrap_err();
    assert_eq!(errors.len(), 1);
    assert!(matches!(errors[0], NetError::StreamNotAlive));
}

#[test]
fn collect_errors_keeps_every_failure() {
    assert!(collect_errors(vec![Ok(()), Ok(())]).is_ok());
    assert!(collect_errors(Vec::new()).is_ok());
    let errors = collect_errors(vec![
        Err(NetError::StreamNotAlive),
        Ok(()),
        Err(NetError::SerializationError),
    ])
    .unwrap_err();
    assert_eq!(errors.len(), 2);
    assert!(matches!(errors[0], NetError::StreamNotAlive));
    assert!(matches!(errors[1], NetError::SerializationError));
}

#[test]
fn registry_filters_and_replaces() {
    let mut registry: ConnectionRegistry<u32> = ConnectionRegistry::new();
    assert_eq!(registry.insert("a".to_string(), 1), None);
    assert_eq!(registry.insert("b".to_string(), 2), None);
    assert_eq!(registry.insert("c".to_string(), 3), None);
    assert_eq!(registry.insert("b".to_string(), 20), Some(2));
    assert_eq!(registry.len(), 3);
    assert_eq!(registry.snapshot(), vec!["a".to_string(), "b".to_string(), "c".to_string()]);
    assert_eq!(*registry.stream(1), 20);
    assert_eq!(registry.targets(&Some(vec!["c".to_string(), "a".to_string(), "z".to_string()])), vec![0, 2]);
    assert_eq!(registry.targets(&Some(Vec::new())), Vec::<usize>::new());
    assert_eq!(registry.position(&"c".to_string()), Some(2));
    assert_eq!(registry.position(&"z".to_string()), None);
    assert_eq!(registry.clear(), vec![1, 20, 3]);
}

#[test]
fn end_to_end_hello() {
    let mut a = CryptLib::new(2048).unwrap();
    let mut b = CryptLib::new(2048).unwrap();
    let a_address = "127.0.0.1".to_string();

    // A connects to B: each side's first frame announces its key, and each new
    // stream sends its first ping before anything else.
    let a_hello = key_announcement(&a);
    let b_hello = key_announcement(&b);
    let mut a_side = StreamState::from_announcement(&payload_of_frame(&b_hello)).unwrap();
    let mut b_side = StreamState::from_announcement(&payload_of_frame(&a_hello)).unwrap();
    let a_ping = a_side.greeting(&a).unwrap().unwrap();
    let b_ping = b_side.greeting(&b).unwrap().unwrap();

    // B's reader decrypts A's ping; A's reader decrypts B's.
    assert_eq!(b_side.inbound(&mut b, &payload_of_frame(&a_ping)).unwrap(), Action::Ping);
    assert_eq!(a_side.inbound(&mut a, &payload_of_frame(&b_ping)).unwrap(), Action::Ping);
    assert_eq!(b_side.get_receiver_public_key().get_key(), a.get_public_rsa_key().get_key());

    let mut b_registry: ConnectionRegistry<StreamState> = ConnectionRegistry::new();
    b_registry.insert(a_address.clone(), b_side);

    let hello = a_side.send(&a, b"hello".to_vec()).unwrap();
    let i = b_registry.position(&a_address).unwrap();
    let mut streams = b_registry.clear();
    assert_eq!(streams[i].inbound(&mut b, &payload_of_frame(&hello)).unwrap(), Action::Transmit);

    // B's recv: every selected stream's queue, keyed by address, empty ones left out.
    let mut received: Vec<(String, Vec<Packet>)> = Vec::new();
    for s in streams.iter_mut() {
        let packets = s.drain();
        if !packets.is_empty() {
            received.push((a_address.clone(), packets));
        }
    }
    assert_eq!(received.len(), 1);
    assert_eq!(received[0].0, a_address);
    assert_eq!(received[0].1.len(), 1);
    assert_eq!(received[0].1[0].action, Action::Transmit);
    assert_eq!(received[0].1[0].data, b"hello".to_vec());

    // A second recv finds nothing new.
    assert!(streams[0].drain().is_empty());

    // B answers; A reads it.
    let reply = streams[0].send(&b, b"hi".to_vec()).unwrap();
    assert_eq!(a_side.inbound(&mut a, &payload_of_frame(&reply)).unwrap(), Action::Transmit);
    assert_eq!(a_side.read().unwrap().data, b"hi".to_vec());
}

#[test]
fn greeting_is_sent_once() {
    let (a, mut a_side, mut b, mut b_side) = pair();
    let first = a_side.greeting(&a).unwrap().unwrap();
    assert!(a_side.greeting(&a).unwrap().is_none());
    assert_eq!(b_side.inbound(&mut b, &payload_of_frame(&first)).unwrap(), Action::Ping);
    assert!(b_side.greeting(&b).unwrap().is_some());
    assert!(b_side.greeting(&b).unwrap().is_none());

    let mut closed = StreamState::new(a.get_public_rsa_key());
    closed.transport_failed();
    assert!(closed.greeting(&b).unwrap().is_none());
}
