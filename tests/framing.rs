use networking_lib::{frame, FrameReader};

/// Feeds `bytes` to a reader in chunks of at most `chunk` bytes, never more than
/// the reader asks for, and returns the payloads that come out and the bytes left.
fn read_frames(bytes: &[u8], chunk: usize) -> (Vec<Vec<u8>>, usize) {
    let mut reader = FrameReader::new();
    let mut out = Vec::new();
    let mut pos = 0;
    while pos < bytes.len() {
        let n = reader.wanted().min(chunk).min(bytes.len() - pos);
        assert!(n > 0);
        reader.feed(&bytes[pos..pos + n]);
        pos += n;
        if let Some(p) = reader.take() {
            out.push(p);
        }
    }
    (out, pos)
}

#[test]
fn framing_exactness() {
    for n in [0usize, 1, 4095, 4096, 4097, 1_000_000] {
        let payload: Vec<u8> = (0..n).map(|i| (i * 31 + 7) as u8).collect();
        let framed = frame(&payload);
        assert_eq!(framed.len(), 8 + n);
        assert_eq!(&framed[..8], &(n as u64).to_le_bytes());
        for chunk in [1usize, 3, 512] {
            if n == 1_000_000 && chunk == 1 {
                continue;
            }
            let (frames, _) = read_frames(&framed, chunk);
            assert_eq!(frames.len(), 1);
            assert_eq!(frames[0], payload);
        }
    }
}

#[test]
fn framing_exactness_one_byte_chunks_large() {
    let payload: Vec<u8> = (0..1_000_000usize).map(|i| (i % 251) as u8).collect();
    let framed = frame(&payload);
    let (frames, _) = read_frames(&framed, 1);
    assert_eq!(frames, vec![payload]);
}

#[test]
fn reader_stops_at_frame_end() {
    let mut bytes = frame(b"first");
    bytes.extend(frame(b""));
    bytes.extend(frame(b"third record"));
    for chunk in [1usize, 3, 512] {
        let (frames, consumed) = read_frames(&bytes, chunk);
        assert_eq!(consumed, bytes.len());
        assert_eq!(frames, vec![b"first".to_vec(), Vec::new(), b"third record".to_vec()]);
    }

    let mut reader = FrameReader::new();
    assert_eq!(reader.wanted(), 8);
    reader.feed(&bytes[..8]);
    assert_eq!(reader.wanted(), 5);
    assert!(reader.take().is_none());
    reader.feed(&bytes[8..13]);
    assert_eq!(reader.wanted(), 0);
    assert_eq!(reader.take(), Some(b"first".to_vec()));
    assert_eq!(reader.wanted(), 8);
}

#[test]
fn reader_asks_for_bounded_chunks() {
    let framed = frame(&vec![0u8; 2000]);
    let mut reader = FrameReader::new();
    reader.feed(&framed[..8]);
    assert_eq!(reader.wanted(), 512);
    reader.feed(&framed[8..520]);
    reader.feed(&framed[520..1032]);
    reader.feed(&framed[1032..1544]);
    assert_eq!(reader.wanted(), 464);
    reader.feed(&framed[1544..1908]);
    assert_eq!(reader.wanted(), 100);
    assert!(reader.take().is_none());
}

#[test]
fn zero_length_frame() {
    let framed = frame(&[]);
    assert_eq!(framed, vec![0u8; 8]);
    let mut reader = FrameReader::new();
    reader.feed(&framed);
    assert_eq!(reader.wanted(), 0);
    assert_eq!(reader.take(), Some(Vec::new()));
}
