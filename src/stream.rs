//! The decisions of one connection: which records to send, what to do with each
//! record that arrives, the queue of delivered payloads, and closing. The socket,
//! the locks and the background reader that drive it live outside the library.
use vstd::prelude::*;

use crate::crypt_lib::CryptLib;
use crate::error::{CryptError, NetError};
use crate::framing::{frame, frame_bytes, payload_of};
use crate::protocol::{carries, metadata_bytes, received, Action, MetadataView, Protocol};
use crate::rsa::{parsed_public, KeyFormat, RsaPublicKey};

verus! {

/// A decrypted payload, tagged with the action of the record that carried it. The
/// application's own discriminant of its message kinds travels inside `data`: the
/// library stores and forwards those bytes without reading them.
pub struct Packet {
    pub action: Action,
    pub data: Vec<u8>,
}

/// `frame` is one frame whose record seals `data` with metadata carrying `action`
/// and `sender_public`, and wraps `key` for the holder of `receiver_public`.
pub open spec fn sends(
    frame: Seq<u8>,
    receiver_public: Seq<u8>,
    key: Seq<u8>,
    action: Action,
    sender_public: Seq<u8>,
    data: Seq<u8>,
) -> bool {
    &&& frame.len() >= 8
    &&& frame == frame_bytes(payload_of(frame))
    &&& exists|timestamp: u128|
        carries(
            payload_of(frame),
            receiver_public,
            key,
            data,
            #[trigger] metadata_bytes(MetadataView { timestamp, action, sender_public_key: sender_public }),
        )
}

/// The queue after a payload is delivered to it: the payload goes last.
pub open spec fn delivered(queue: Seq<Packet>, p: Packet) -> Seq<Packet> {
    queue.push(p)
}

/// What a read takes from the queue: the oldest payload, if any.
pub open spec fn read_result(queue: Seq<Packet>) -> Option<Packet> {
    if queue.len() == 0 {
        None
    } else {
        Some(queue[0])
    }
}

/// The queue after a read.
pub open spec fn after_read(queue: Seq<Packet>) -> Seq<Packet> {
    if queue.len() == 0 {
        queue
    } else {
        queue.subrange(1, queue.len() as int)
    }
}

/// Whether the first ping is still due from a stream in state `s`.
pub open spec fn owes_greeting(s: StreamState) -> bool {
    s.alive() && !s.greeted()
}

/// Whether closing a stream in state `s` sends a `Close` record: a live stream does.
pub open spec fn close_sends_record(s: StreamState) -> bool {
    s.alive()
}

/// The frame that opens a connection, before any record: this side's public
/// encryption key (DER), sent in the clear so that the peer can encrypt for it.
/// Public keys are exchanged this way, opportunistically, and not checked against
/// any root of trust.
pub fn key_announcement(crypt_lib: &CryptLib) -> (r: Vec<u8>)
    ensures
        r@ == frame_bytes(crypt_lib.public_view()),
{
    let key = crypt_lib.get_public_rsa_key();
    frame(key.get_key())
}

/// The state of one connection.
pub struct StreamState {
    is_stream_alive: bool,
    greeted: bool,
    read_packets: Vec<Packet>,
    receiver_public_key: RsaPublicKey,
}

impl StreamState {
    pub closed spec fn alive(&self) -> bool {
        self.is_stream_alive
    }

    /// Whether this side has sent the peer its first ping.
    pub closed spec fn greeted(&self) -> bool {
        self.greeted
    }

    /// The payloads delivered and not yet read, oldest first.
    pub closed spec fn queue(&self) -> Seq<Packet> {
        self.read_packets@
    }

    /// The peer's public encryption key, as DER.
    pub closed spec fn receiver_key(&self) -> Seq<u8> {
        self.receiver_public_key@
    }

    /// A live connection with nothing queued, to a peer whose key may already be known.
    pub fn new(receiver_public_key: RsaPublicKey) -> (r: Self)
        ensures
            r.alive(),
            !r.greeted(),
            r.queue() == Seq::<Packet>::empty(),
            r.receiver_key() == receiver_public_key@,
            owes_greeting(r),
    {
        StreamState { is_stream_alive: true, greeted: false, read_packets: Vec::new(), receiver_public_key }
    }

    /// The state of a new connection, from the payload of the peer's first frame: its
    /// key announcement. The new stream owes the peer its first ping.
    pub fn from_announcement(payload: &[u8]) -> (r: Result<Self, NetError>)
        ensures
            match r {
                Ok(s) => {
                    &&& parsed_public(payload@, KeyFormat::DER) == Some(s.receiver_key())
                    &&& s.alive()
                    &&& owes_greeting(s)
                    &&& s.queue() == Seq::<Packet>::empty()
                },
                Err(e) => e matches NetError::CryptError(CryptError::PublicKey(_)) && parsed_public(payload@, KeyFormat::DER) is None,
            },
    {
        match RsaPublicKey::new(payload, KeyFormat::DER) {
            Ok(k) => Ok(StreamState::new(k)),
            Err(e) => Err(NetError::CryptError(e)),
        }
    }

    pub fn is_stream_alive(&self) -> (r: bool)
        ensures
            r == self.alive(),
    {
        self.is_stream_alive
    }

    pub fn get_receiver_public_key(&self) -> (r: &RsaPublicKey)
        ensures
            r@ == self.receiver_key(),
    {
        &self.receiver_public_key
    }

    /// Takes the oldest delivered payload, or `None` when nothing is queued.
    pub fn read(&mut self) -> (r: Option<Packet>)
        ensures
            r == read_result(old(self).queue()),
            final(self).queue() == after_read(old(self).queue()),
            final(self).alive() == old(self).alive(),
            final(self).receiver_key() == old(self).receiver_key(),
    {
        if self.read_packets.len() == 0 {
            return None;
        }
        let p = self.read_packets.remove(0);
        proof {
            assert(self.read_packets@ =~= after_read(old(self).queue()));
        }
        Some(p)
    }

    /// Takes every delivered payload, oldest first, leaving the queue empty.
    pub fn drain(&mut self) -> (r: Vec<Packet>)
        ensures
            r@ == old(self).queue(),
            final(self).queue() == Seq::<Packet>::empty(),
            final(self).alive() == old(self).alive(),
            final(self).receiver_key() == old(self).receiver_key(),
    {
        let mut packets: Vec<Packet> = Vec::new();
        std::mem::swap(&mut self.read_packets, &mut packets);
        packets
    }

    /// The frame of one record with `action` and `data` for the peer: refused with
    /// `StreamNotAlive` once the stream is closed.
    pub fn outbound(&self, crypt_lib: &CryptLib, action: Action, data: Vec<u8>) -> (r: Result<Vec<u8>, NetError>)
        ensures
            !self.alive() ==> r matches Err(NetError::StreamNotAlive),
            match r {
                Ok(f) => self.alive() && sends(
                    f@,
                    self.receiver_key(),
                    crypt_lib.key_view(),
                    action,
                    crypt_lib.public_view(),
                    data@,
                ),
                Err(e) => {
                    ||| (e is StreamNotAlive && !self.alive())
                    ||| (e is CryptError && self.alive())
                },
            },
    {
        if !self.is_stream_alive {
            return Err(NetError::StreamNotAlive);
        }
        let receiver = &self.receiver_public_key;
        let protocol = Protocol::new(crypt_lib, action, data);
        let bytes = match protocol.to_bytes(crypt_lib, receiver) {
            Ok(b) => b,
            Err(e) => return Err(e),
        };
        let f = frame(bytes.as_slice());
        proof {
            crate::wire::lemma_int_bytes();
            assert(crate::wire::u64_bytes(bytes@.len() as u64).len() == 8);
            assert(payload_of(f@) =~= bytes@);
            let m = protocol.metadata();
            assert(m == MetadataView { timestamp: protocol.timestamp, action, sender_public_key: crypt_lib.public_view() });
        }
        Ok(f)
    }

    /// The frame of an application payload.
    pub fn send(&self, crypt_lib: &CryptLib, data: Vec<u8>) -> (r: Result<Vec<u8>, NetError>)
        ensures
            !self.alive() ==> r matches Err(NetError::StreamNotAlive),
            match r {
                Ok(f) => self.alive() && sends(
                    f@,
                    self.receiver_key(),
                    crypt_lib.key_view(),
                    Action::Transmit,
                    crypt_lib.public_view(),
                    data@,
                ),
                Err(e) => {
                    ||| (e is StreamNotAlive && !self.alive())
                    ||| (e is CryptError && self.alive())
                },
            },
    {
        self.outbound(crypt_lib, Action::Transmit, data)
    }

    /// The frame of a liveness probe, which hands this side's symmetric key to the peer.
    pub fn ping(&self, crypt_lib: &CryptLib) -> (r: Result<Vec<u8>, NetError>)
        ensures
            !self.alive() ==> r matches Err(NetError::StreamNotAlive),
            match r {
                Ok(f) => self.alive() && sends(
                    f@,
                    self.receiver_key(),
                    crypt_lib.key_view(),
                    Action::Ping,
                    crypt_lib.public_view(),
                    Seq::empty(),
                ),
                Err(e) => {
                    ||| (e is StreamNotAlive && !self.alive())
                    ||| (e is CryptError && self.alive())
                },
            },
    {
        self.outbound(crypt_lib, Action::Ping, Vec::new())
    }

    /// The first ping, which hands this side's symmetric key to the peer: owed by
    /// every new stream, and sent once, while the stream is live.
    pub fn greeting(&mut self, crypt_lib: &CryptLib) -> (r: Result<Option<Vec<u8>>, NetError>)
        ensures
            final(self).alive() == old(self).alive(),
            final(self).queue() == old(self).queue(),
            final(self).receiver_key() == old(self).receiver_key(),
            !owes_greeting(*old(self)) ==> ((r matches Ok(None)) && final(self).greeted() == old(self).greeted()),
            owes_greeting(*old(self)) ==> r is Err || r matches Ok(Some(_)),
            match r {
                Ok(Some(f)) => {
                    &&& owes_greeting(*old(self))
                    &&& final(self).greeted()
                    &&& sends(
                        f@,
                        old(self).receiver_key(),
                        crypt_lib.key_view(),
                        Action::Ping,
                        crypt_lib.public_view(),
                        Seq::empty(),
                    )
                },
                Ok(None) => true,
                Err(e) => e is CryptError && final(self).greeted() == old(self).greeted(),
            },
    {
        if self.greeted || !self.is_stream_alive {
            return Ok(None);
        }
        match self.ping(crypt_lib) {
            Ok(f) => {
                self.greeted = true;
                Ok(Some(f))
            },
            Err(e) => Err(e),
        }
    }

    /// Handles the payload of one frame that arrived: opens the record with
    /// `crypt_lib` (which adopts the sender's symmetric key), learns the sender's
    /// public key, and acts on the record: `Transmit` queues the payload last,
    /// `Ping` delivers nothing, `Close` closes the stream. A record that cannot be
    /// read closes the stream too, since its reader stops there.
    pub fn inbound(&mut self, crypt_lib: &mut CryptLib, payload: &[u8]) -> (r: Result<Action, NetError>)
        requires
            old(crypt_lib).wf(),
        ensures
            final(crypt_lib).wf(),
            final(crypt_lib).private_view() == old(crypt_lib).private_view(),
            final(crypt_lib).public_view() == old(crypt_lib).public_view(),
            final(crypt_lib).sign_private_view() == old(crypt_lib).sign_private_view(),
            final(crypt_lib).sign_public_view() == old(crypt_lib).sign_public_view(),
            match received(payload@, old(crypt_lib).private_view()) {
                Some((key, m, data)) => {
                    &&& final(crypt_lib).key_view() == key
                    &&& match parsed_public(m.sender_public_key, KeyFormat::DER) {
                        Some(sender) => {
                            &&& r == Ok::<Action, NetError>(m.action)
                            &&& final(self).receiver_key() == sender
                            &&& final(self).alive() == (old(self).alive() && m.action != Action::Close)
                            &&& (m.action == Action::Transmit ==> {
                                &&& final(self).queue().len() == old(self).queue().len() + 1
                                &&& final(self).queue().subrange(0, old(self).queue().len() as int) == old(self).queue()
                                &&& final(self).queue().last().action == Action::Transmit
                                &&& final(self).queue().last().data@ == data
                            })
                            &&& (m.action != Action::Transmit ==> final(self).queue() == old(self).queue())
                        },
                        None => {
                            &&& r matches Err(NetError::CryptError(CryptError::PublicKey(_)))
                            &&& !final(self).alive()
                            &&& final(self).queue() == old(self).queue()
                        },
                    }
                },
                None => {
                    &&& r is Err
                    &&& !final(self).alive()
                    &&& final(self).queue() == old(self).queue()
                },
            },
    {
        let protocol = match Protocol::from_bytes(payload, crypt_lib) {
            Ok(p) => p,
            Err(e) => {
                self.is_stream_alive = false;
                return Err(e);
            },
        };
        let sender = match RsaPublicKey::new(protocol.sender_public_key.as_slice(), KeyFormat::DER) {
            Ok(k) => k,
            Err(e) => {
                self.is_stream_alive = false;
                return Err(NetError::CryptError(e));
            },
        };
        self.receiver_public_key = sender;
        let action = protocol.action;
        match action {
            Action::Transmit => {
                let ghost before = self.read_packets@;
                self.read_packets.push(Packet { action: Action::Transmit, data: protocol.data });
                proof {
                    assert(self.read_packets@.subrange(0, before.len() as int) =~= before);
                }
            },
            Action::Ping => {},
            Action::Close => {
                self.is_stream_alive = false;
            },
        }
        Ok(action)
    }

    /// The transport under the stream failed: the stream is closed.
    pub fn transport_failed(&mut self)
        ensures
            !final(self).alive(),
            final(self).queue() == old(self).queue(),
            final(self).receiver_key() == old(self).receiver_key(),
    {
        self.is_stream_alive = false;
    }

    /// Closes the stream. A live stream whose peer's key is known hands back the frame
    /// of a `Close` record to send; a stream that is already closed hands back nothing
    /// and stays as it is, so closing twice sends one `Close` at most. Either way the
    /// stream is closed afterwards.
    pub fn close(&mut self, crypt_lib: &CryptLib) -> (r: Result<Option<Vec<u8>>, NetError>)
        ensures
            !final(self).alive(),
            final(self).queue() == old(self).queue(),
            final(self).receiver_key() == old(self).receiver_key(),
            !close_sends_record(*old(self)) ==> r matches Ok(None),
            close_sends_record(*old(self)) ==> (r is Err || r matches Ok(Some(_))),
            match r {
                Ok(Some(f)) => close_sends_record(*old(self)) && sends(
                    f@,
                    old(self).receiver_key(),
                    crypt_lib.key_view(),
                    Action::Close,
                    crypt_lib.public_view(),
                    Seq::empty(),
                ),
                Ok(None) => true,
                Err(e) => e is CryptError,
            },
    {
        let result = match self.outbound(crypt_lib, Action::Close, Vec::new()) {
            Ok(f) => Ok(Some(f)),
            Err(NetError::StreamNotAlive) => Ok(None),
            Err(e) => Err(e),
        };
        self.is_stream_alive = false;
        result
    }
}

/// Idempotent close: every close leaves the stream closed, and closing a closed
/// stream sends no `Close` record, so a second close never repeats the first.
pub proof fn lemma_close_idempotent(s: StreamState)
    requires
        !s.alive(),
    ensures
        !close_sends_record(s),
{
}

/// Queue ordering: payloads delivered A, then B, then C to an empty queue are read
/// back A, then B, then C, and then nothing.
pub proof fn lemma_fifo(a: Packet, b: Packet, c: Packet)
    ensures
        ({
            let q = delivered(delivered(delivered(Seq::empty(), a), b), c);
            &&& read_result(q) == Some(a)
            &&& read_result(after_read(q)) == Some(b)
            &&& read_result(after_read(after_read(q))) == Some(c)
            &&& read_result(after_read(after_read(after_read(q)))) is None
        }),
{
    let q = delivered(delivered(delivered(Seq::empty(), a), b), c);
    assert(after_read(q) =~= seq![b, c]);
    assert(after_read(after_read(q)) =~= seq![c]);
    assert(after_read(after_read(after_read(q))) =~= Seq::<Packet>::empty());
}

/// Reading takes from the front of the queue and delivering adds at the back, so a
/// read after a delivery to a non-empty queue gives the same payload as a read before it.
pub proof fn lemma_delivery_keeps_order(queue: Seq<Packet>, p: Packet)
    requires
        queue.len() > 0,
    ensures
        read_result(delivered(queue, p)) == read_result(queue),
        after_read(delivered(queue, p)) == delivered(after_read(queue), p),
{
    assert(after_read(delivered(queue, p)) =~= delivered(after_read(queue), p));
}

} // verus!
