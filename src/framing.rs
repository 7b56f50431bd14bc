//! Framing of records on a byte stream: each record travels as its length (eight
//! little-endian bytes) followed by that many bytes. The reader asks the transport
//! for bounded chunks and never for a byte past the declared end, so whatever
//! follows belongs to the next record.
use vstd::bytes::{lemma_auto_spec_u64_to_from_le_bytes, u64_from_le_bytes};
use vstd::prelude::*;

use crate::wire::{length_prefixed, put_length_prefixed, to_vec, u64_bytes, u64_of};

verus! {

/// Length of the header that carries the record's length.
pub const HEADER_LEN: usize = 8;

/// Largest number of bytes that the reader asks for at once.
pub const CHUNK_LEN: usize = 512;

/// The bytes that carry `payload` on the stream.
pub open spec fn frame_bytes(payload: Seq<u8>) -> Seq<u8> {
    length_prefixed(payload)
}

/// The length that the header at the front of `received` declares.
pub open spec fn declared_len(received: Seq<u8>) -> u64 {
    u64_of(received.subrange(0, 8))
}

/// `received` holds a whole header and everything that it declares.
pub open spec fn is_complete(received: Seq<u8>) -> bool {
    received.len() >= 8 && received.len() == 8 + declared_len(received)
}

/// `received` holds nothing past the end that its header declares.
pub open spec fn within_frame(received: Seq<u8>) -> bool {
    received.len() <= 8 || received.len() <= 8 + declared_len(received)
}

/// How many bytes the reader asks for next, having `received`.
pub open spec fn wanted(received: Seq<u8>) -> nat {
    if received.len() < 8 {
        (8 - received.len()) as nat
    } else {
        let left = 8 + declared_len(received) - received.len();
        if left < 512 {
            left as nat
        } else {
            512
        }
    }
}

/// The payload of a complete frame.
pub open spec fn payload_of(received: Seq<u8>) -> Seq<u8> {
    received.subrange(8, received.len() as int)
}

/// Writes `payload` as one frame.
pub fn frame(payload: &[u8]) -> (r: Vec<u8>)
    ensures
        r@ == frame_bytes(payload@),
{
    let mut out: Vec<u8> = Vec::new();
    put_length_prefixed(&mut out, payload);
    assert(out@ =~= frame_bytes(payload@));
    out
}

/// Reassembles one frame at a time from the chunks that the transport delivers.
pub struct FrameReader {
    received: Vec<u8>,
}

impl View for FrameReader {
    type V = Seq<u8>;

    closed spec fn view(&self) -> Seq<u8> {
        self.received@
    }
}

impl FrameReader {
    /// The reader holds nothing past the end of its frame.
    pub open spec fn wf(&self) -> bool {
        within_frame(self@)
    }

    /// A reader that has received nothing.
    pub fn new() -> (r: Self)
        ensures
            r@ == Seq::<u8>::empty(),
            r.wf(),
    {
        FrameReader { received: Vec::new() }
    }

    /// How many bytes to read from the transport next: never more than
    /// [`CHUNK_LEN`], never past the end of the frame, and zero once the frame is
    /// complete.
    pub fn wanted(&self) -> (r: usize)
        requires
            self.wf(),
        ensures
            r == wanted(self@),
            r <= CHUNK_LEN,
            r == 0 <==> is_complete(self@),
    {
        let len = self.received.len();
        if len < HEADER_LEN {
            return HEADER_LEN - len;
        }
        let declared = u64_from_le_bytes(self.received.as_slice().split_at(HEADER_LEN).0);
        let seen = (len - HEADER_LEN) as u64;
        let left = declared - seen;
        if left < CHUNK_LEN as u64 {
            left as usize
        } else {
            CHUNK_LEN
        }
    }

    /// Adds bytes that the transport delivered; at most [`wanted`](Self::wanted) of them.
    pub fn feed(&mut self, chunk: &[u8])
        requires
            old(self).wf(),
            chunk@.len() <= wanted(old(self)@),
        ensures
            final(self).wf(),
            final(self)@ == old(self)@ + chunk@,
    {
        let ghost before = self.received@;
        crate::wire::append(&mut self.received, chunk);
        proof {
            let after = self.received@;
            if before.len() >= 8 {
                assert(after.subrange(0, 8) =~= before.subrange(0, 8));
            } else if after.len() >= 8 {
                assert(after.len() <= 8);
            }
        }
    }

    /// Hands out the payload once the frame is complete and starts on the next frame;
    /// `None` while bytes are still missing.
    pub fn take(&mut self) -> (r: Option<Vec<u8>>)
        requires
            old(self).wf(),
        ensures
            final(self).wf(),
            is_complete(old(self)@) ==> r is Some && r->Some_0@ == payload_of(old(self)@) && final(self)@ == Seq::<u8>::empty(),
            !is_complete(old(self)@) ==> r is None && final(self)@ == old(self)@,
    {
        if self.wanted() != 0 {
            return None;
        }
        let payload = to_vec(self.received.as_slice().split_at(HEADER_LEN).1);
        self.received = Vec::new();
        Some(payload)
    }
}

/// Framing is exact: while a reader has received only part of the frame of
/// `payload`, it asks for at least one byte and for none past the frame's end; once
/// it has received the whole frame, it is complete and its payload is `payload`.
/// Since [`FrameReader::feed`] only appends, this holds however the transport cuts
/// the frame into chunks.
pub proof fn lemma_framing_exact(payload: Seq<u8>, received: Seq<u8>)
    requires
        payload.len() <= u64::MAX,
        received.len() <= frame_bytes(payload).len(),
        received == frame_bytes(payload).subrange(0, received.len() as int),
    ensures
        within_frame(received),
        received.len() < frame_bytes(payload).len() ==> {
            &&& !is_complete(received)
            &&& 0 < wanted(received)
            &&& received.len() + wanted(received) <= frame_bytes(payload).len()
        },
        received.len() == frame_bytes(payload).len() ==> is_complete(received) && payload_of(received) == payload,
{
    lemma_auto_spec_u64_to_from_le_bytes();
    let f = frame_bytes(payload);
    assert(f.subrange(0, 8) =~= u64_bytes(payload.len() as u64));
    if received.len() >= 8 {
        assert(received.subrange(0, 8) =~= f.subrange(0, 8));
        assert(declared_len(received) == payload.len());
    }
    if received.len() == f.len() {
        assert(payload_of(received) =~= payload);
    }
}

} // verus!
