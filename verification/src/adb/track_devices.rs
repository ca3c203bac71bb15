//! The adb server's `host:track-devices` service, which sends a list of all
//! devices whenever it changes.
//!
//! Requests and lists are frames: four hexadecimal digits and as many bytes
//! as they say. A `Stream` holds what was read from the server and not yet
//! used, so that it does not matter in what pieces it arrived.

use crate::adb::devices::{
    a_sent_list_reads_back, all_plain, entries, list_for, listed, parse_device_list, Device, Entry,
};
use crate::bytes::{decode_lossy, is_utf8, utf8_lossy};
use crate::number::{
    all_hex, decimal, hex, hex_number, hex_reads_back, lemma_four_hex_digits, parse_hex,
    push_decimal, push_hex,
};
use crate::text::lines;
use vstd::prelude::*;
use vstd::slice::slice_subrange;
use vstd::string::StringExecFns;
use vstd::utf8::{decode_utf8, encode_utf8, valid_utf8};

verus! {

/// What was read from the server and not yet used, and whether nothing more
/// will come.
#[derive(Debug)]
pub struct Stream {
    pub pending: Vec<u8>,
    pub ended: bool,
}

/// Why tracking failed.
#[derive(Debug)]
pub enum TrackError {
    /// Connecting took too long.
    TimedOut,
    /// The server refused, and said this.
    Refused(Vec<u8>),
    /// The server answered with a status there is no such thing as.
    UnexpectedStatus(u8, u8, u8, u8),
    /// A length is not even text.
    LengthNotAscii,
    /// A length is not a hexadecimal number.
    LengthNotHex,
    /// The connection ended in the middle of something.
    UnexpectedEnd,
}

/// What kind of failure that is.
#[derive(Clone, Copy, PartialEq, Eq, Structural, Debug)]
pub enum ErrorKind {
    TimedOut,
    InvalidData,
    UnexpectedEof,
    Other,
}

/// A connection on which the server agreed to send lists.
#[derive(Debug)]
pub struct TrackDevicesClient {
    pub stream: Stream,
}

/// How far connecting got.
#[derive(Debug)]
pub enum Connecting {
    /// More has to be read first.
    Pending(Stream),
    /// The server agreed.
    Connected(TrackDevicesClient),
    /// There is no connection.
    Failed(TrackError),
}

/// What there is to be had from a connection.
#[derive(Debug)]
pub enum Snapshot {
    /// More has to be read first.
    Pending,
    /// A list of all devices.
    Devices(Vec<Device>),
    /// The server closed the connection.
    Closed,
    /// The connection is of no more use.
    Failed(TrackError),
}

/// What some bytes begin with.
#[verifier::ext_equal]
pub enum Framing {
    /// Not a whole frame yet.
    Incomplete,
    /// A frame with this in it, and what follows it.
    Frame { payload: Seq<u8>, rest: Seq<u8> },
    /// Something that is not even text where a length should stand.
    LengthNotAscii,
    /// Text that is no number where a length should stand.
    LengthNotHex,
}

/// What some bytes begin with.
pub open spec fn framing(bytes: Seq<u8>) -> Framing {
    if bytes.len() < 4 {
        Framing::Incomplete
    } else {
        let header = bytes.take(4);
        if all_hex(header) {
            let length = hex_number(header) as int;
            if bytes.len() < 4 + length {
                Framing::Incomplete
            } else {
                Framing::Frame {
                    payload: bytes.subrange(4, 4 + length),
                    rest: bytes.skip(4 + length),
                }
            }
        } else if valid_utf8(header) {
            Framing::LengthNotHex
        } else {
            Framing::LengthNotAscii
        }
    }
}

/// A frame with `payload` in it.
pub open spec fn framed(payload: Seq<u8>) -> Seq<u8> {
    hex(payload.len(), 4) + payload
}

/// The request for a service.
pub fn request(service: &str) -> (bytes: Vec<u8>)
    ensures
        bytes@ == framed(encode_utf8(service@)),
{
    let name = service.as_bytes();
    let mut bytes: Vec<u8> = Vec::new();
    push_hex(&mut bytes, name.len() as u64, 4);
    bytes.extend_from_slice(name);
    assert(bytes@ == framed(encode_utf8(service@)));
    bytes
}

/// The request for lists of devices.
pub fn track_devices_request() -> (bytes: Vec<u8>)
    ensures
        bytes@ == framed(encode_utf8("host:track-devices"@)),
{
    request("host:track-devices")
}

/// A frame that was taken off the front, or why there is none.
#[derive(Debug)]
enum Taken {
    Incomplete,
    Payload(Vec<u8>),
    LengthNotAscii,
    LengthNotHex,
}

impl Stream {
    /// A connection nothing was read from yet.
    pub fn new() -> (stream: Stream)
        ensures
            stream.pending@ == Seq::<u8>::empty(),
            !stream.ended,
    {
        Stream { pending: Vec::new(), ended: false }
    }

    /// Takes in what was read.
    pub fn receive(&mut self, bytes: &[u8])
        ensures
            final(self).pending@ == old(self).pending@ + bytes@,
            final(self).ended == old(self).ended,
    {
        let ghost before = self.pending@;
        self.pending.extend_from_slice(bytes);
        assert(self.pending@ == before + bytes@);
    }

    /// Takes in that nothing more will come.
    pub fn end(&mut self)
        ensures
            final(self).pending@ == old(self).pending@,
            final(self).ended,
    {
        self.ended = true;
    }

    /// Takes `n` bytes off the front.
    fn split_front(&mut self, n: usize) -> (front: Vec<u8>)
        requires
            n <= old(self).pending@.len(),
        ensures
            front@ == old(self).pending@.take(n as int),
            final(self).pending@ == old(self).pending@.skip(n as int),
            final(self).ended == old(self).ended,
    {
        let ghost whole = self.pending@;
        let rest = self.pending.split_off(n);
        let mut front: Vec<u8> = Vec::new();
        front.append(&mut self.pending);
        self.pending = rest;
        assert(whole.subrange(0, n as int) == whole.take(n as int));
        assert(whole.subrange(n as int, whole.len() as int) == whole.skip(n as int));
        assert(Seq::<u8>::empty() + whole.take(n as int) == whole.take(n as int));
        front
    }

    /// Takes a frame off the front, if there is a whole one. A length that
    /// makes no sense is taken off too.
    fn take_frame(&mut self) -> (taken: Taken)
        ensures
            final(self).ended == old(self).ended,
            match framing(old(self).pending@) {
                Framing::Incomplete => taken is Incomplete && final(self).pending@
                    == old(self).pending@,
                Framing::Frame { payload, rest } => {
                    &&& taken is Payload
                    &&& taken->Payload_0@ == payload
                    &&& final(self).pending@ == rest
                },
                Framing::LengthNotAscii => taken is LengthNotAscii && final(self).pending@
                    == old(self).pending@.skip(4),
                Framing::LengthNotHex => taken is LengthNotHex && final(self).pending@
                    == old(self).pending@.skip(4),
            },
    {
        let ghost whole = self.pending@;
        if self.pending.len() < 4 {
            return Taken::Incomplete;
        }
        let header = slice_subrange(self.pending.as_slice(), 0, 4);
        assert(header@ == whole.take(4));
        match parse_hex(header) {
            Some(length) => {
                if self.pending.len() - 4 < length as usize {
                    return Taken::Incomplete;
                }
                let _ = self.split_front(4);
                let payload = self.split_front(length as usize);
                proof {
                    assert(whole.skip(4).take(length as int) == whole.subrange(4, 4 + length));
                    assert(whole.skip(4).skip(length as int) == whole.skip(4 + length));
                }
                Taken::Payload(payload)
            },
            None => {
                let text = is_utf8(header);
                let _ = self.split_front(4);
                if text {
                    Taken::LengthNotHex
                } else {
                    Taken::LengthNotAscii
                }
            },
        }
    }
}

/// What connecting comes to, after so much was read.
pub enum Answer {
    Pending,
    Connected { rest: Seq<u8> },
    Refused(Seq<u8>),
    UnexpectedStatus(u8, u8, u8, u8),
    LengthNotAscii,
    LengthNotHex,
    UnexpectedEnd,
}

/// The four bytes of "OKAY".
pub open spec fn okay() -> Seq<u8> {
    seq![0x4fu8, 0x4b, 0x41, 0x59]
}

/// The four bytes of "FAIL".
pub open spec fn fail() -> Seq<u8> {
    seq![0x46u8, 0x41, 0x49, 0x4c]
}

/// What the server answered to a request: that it agrees, or that it does
/// not, with a frame that says why. If that frame never begins, nothing is
/// known of why.
pub open spec fn answer(bytes: Seq<u8>, ended: bool) -> Answer {
    if bytes.len() < 4 {
        if ended {
            Answer::UnexpectedEnd
        } else {
            Answer::Pending
        }
    } else if bytes.take(4) == okay() {
        Answer::Connected { rest: bytes.skip(4) }
    } else if bytes.take(4) == fail() {
        match framing(bytes.skip(4)) {
            Framing::Frame { payload, .. } => Answer::Refused(payload),
            Framing::LengthNotAscii => Answer::LengthNotAscii,
            Framing::LengthNotHex => Answer::LengthNotHex,
            Framing::Incomplete => if !ended {
                Answer::Pending
            } else if bytes.len() == 4 {
                Answer::Refused(Seq::empty())
            } else {
                Answer::UnexpectedEnd
            },
        }
    } else {
        Answer::UnexpectedStatus(bytes[0], bytes[1], bytes[2], bytes[3])
    }
}

/// Whether connecting came to what the server answered.
pub open spec fn agrees(answer: Answer, before: Stream, connecting: Connecting) -> bool {
    match answer {
        Answer::Pending => {
            &&& connecting matches Connecting::Pending(stream)
            &&& stream.pending@ == before.pending@
            &&& stream.ended == before.ended
        },
        Answer::Connected { rest } => {
            &&& connecting matches Connecting::Connected(client)
            &&& client.stream.pending@ == rest
            &&& client.stream.ended == before.ended
        },
        Answer::Refused(message) => {
            &&& connecting matches Connecting::Failed(TrackError::Refused(said))
            &&& said@ == message
        },
        Answer::UnexpectedStatus(a, b, c, d) => connecting == Connecting::Failed(
            TrackError::UnexpectedStatus(a, b, c, d),
        ),
        Answer::LengthNotAscii => connecting == Connecting::Failed(TrackError::LengthNotAscii),
        Answer::LengthNotHex => connecting == Connecting::Failed(TrackError::LengthNotHex),
        Answer::UnexpectedEnd => connecting == Connecting::Failed(TrackError::UnexpectedEnd),
    }
}

impl TrackDevicesClient {
    /// Looks at what the server answered to the request so far.
    pub fn connect(stream: Stream) -> (connecting: Connecting)
        ensures
            agrees(answer(stream.pending@, stream.ended), stream, connecting),
    {
        let ghost whole = stream.pending@;
        if stream.pending.len() < 4 {
            return if stream.ended {
                Connecting::Failed(TrackError::UnexpectedEnd)
            } else {
                Connecting::Pending(stream)
            };
        }
        let a: u8 = stream.pending[0];
        let b: u8 = stream.pending[1];
        let c: u8 = stream.pending[2];
        let d: u8 = stream.pending[3];
        assert(whole.take(4) == seq![a, b, c, d]);
        if a == 0x4f && b == 0x4b && c == 0x41 && d == 0x59 {
            let mut rest = stream;
            let _ = rest.split_front(4);
            return Connecting::Connected(TrackDevicesClient { stream: rest });
        }
        proof {
            if whole.take(4) == okay() {
                assert(whole.take(4)[0] == a && whole.take(4)[1] == b && whole.take(4)[2] == c
                    && whole.take(4)[3] == d);
            }
        }
        if a == 0x46 && b == 0x41 && c == 0x49 && d == 0x4c {
            let ended = stream.ended;
            let length: usize = stream.pending.len();
            let message = slice_subrange(stream.pending.as_slice(), 4, length);
            assert(message@ == whole.skip(4));
            let mut rest = Stream { pending: Vec::new(), ended };
            rest.receive(message);
            assert(Seq::<u8>::empty() + message@ == message@);
            return match rest.take_frame() {
                Taken::Payload(said) => Connecting::Failed(TrackError::Refused(said)),
                Taken::LengthNotAscii => Connecting::Failed(TrackError::LengthNotAscii),
                Taken::LengthNotHex => Connecting::Failed(TrackError::LengthNotHex),
                Taken::Incomplete => {
                    if !ended {
                        Connecting::Pending(stream)
                    } else if length == 4 {
                        Connecting::Failed(TrackError::Refused(Vec::new()))
                    } else {
                        Connecting::Failed(TrackError::UnexpectedEnd)
                    }
                },
            };
        }
        proof {
            if whole.take(4) == fail() {
                assert(whole.take(4)[0] == a && whole.take(4)[1] == b && whole.take(4)[2] == c
                    && whole.take(4)[3] == d);
            }
        }
        Connecting::Failed(TrackError::UnexpectedStatus(a, b, c, d))
    }

    /// The next list of all devices, once it was read whole. The server may
    /// close the connection between two lists, but not in the middle of one.
    pub fn next_snapshot(&mut self) -> (snapshot: Snapshot)
        ensures
            final(self).stream.ended == old(self).stream.ended,
            match framing(old(self).stream.pending@) {
                Framing::Frame { payload, rest } => {
                    &&& snapshot is Devices
                    &&& entries(snapshot->Devices_0@) == listed(lines(utf8_lossy(payload)))
                    &&& valid_utf8(payload) ==> entries(snapshot->Devices_0@) == listed(
                        lines(decode_utf8(payload)),
                    )
                    &&& final(self).stream.pending@ == rest
                },
                Framing::Incomplete => {
                    &&& final(self).stream.pending@ == old(self).stream.pending@
                    &&& if !old(self).stream.ended {
                        snapshot is Pending
                    } else if old(self).stream.pending@.len() == 0 {
                        snapshot is Closed
                    } else {
                        snapshot == Snapshot::Failed(TrackError::UnexpectedEnd)
                    }
                },
                Framing::LengthNotAscii => {
                    &&& snapshot == Snapshot::Failed(TrackError::LengthNotAscii)
                    &&& final(self).stream.pending@ == old(self).stream.pending@.skip(4)
                },
                Framing::LengthNotHex => {
                    &&& snapshot == Snapshot::Failed(TrackError::LengthNotHex)
                    &&& final(self).stream.pending@ == old(self).stream.pending@.skip(4)
                },
            },
    {
        match self.stream.take_frame() {
            Taken::Payload(payload) => Snapshot::Devices(parse_device_list(payload.as_slice())),
            Taken::LengthNotAscii => Snapshot::Failed(TrackError::LengthNotAscii),
            Taken::LengthNotHex => Snapshot::Failed(TrackError::LengthNotHex),
            Taken::Incomplete => {
                if !self.stream.ended {
                    Snapshot::Pending
                } else if self.stream.pending.len() == 0 {
                    Snapshot::Closed
                } else {
                    Snapshot::Failed(TrackError::UnexpectedEnd)
                }
            },
        }
    }
}

impl TrackError {
    /// What kind of failure this is.
    pub open spec fn sort(self) -> ErrorKind {
        match self {
            TrackError::TimedOut => ErrorKind::TimedOut,
            TrackError::Refused(_) => ErrorKind::Other,
            TrackError::UnexpectedStatus(_, _, _, _) => ErrorKind::InvalidData,
            TrackError::LengthNotAscii => ErrorKind::InvalidData,
            TrackError::LengthNotHex => ErrorKind::InvalidData,
            TrackError::UnexpectedEnd => ErrorKind::UnexpectedEof,
        }
    }

    /// What kind of failure this is.
    pub fn kind(&self) -> (kind: ErrorKind)
        ensures
            kind == self.sort(),
    {
        match self {
            TrackError::TimedOut => ErrorKind::TimedOut,
            TrackError::Refused(_) => ErrorKind::Other,
            TrackError::UnexpectedStatus(_, _, _, _) => ErrorKind::InvalidData,
            TrackError::LengthNotAscii => ErrorKind::InvalidData,
            TrackError::LengthNotHex => ErrorKind::InvalidData,
            TrackError::UnexpectedEnd => ErrorKind::UnexpectedEof,
        }
    }

    /// The sentence for this failure. What a refusing server said may be any
    /// bytes, and `said` is what they amount to as text.
    pub open spec fn sentence(self, said: Seq<char>) -> Seq<char> {
        match self {
            TrackError::TimedOut => "timed out connecting to adb server"@,
            TrackError::Refused(_) => "adb server returned FAIL: "@ + said,
            TrackError::UnexpectedStatus(a, b, c, d) => "unexpected adb server status: ["@
                + decimal(a as nat) + ", "@ + decimal(b as nat) + ", "@ + decimal(c as nat) + ", "@
                + decimal(d as nat) + "]"@,
            TrackError::LengthNotAscii => "length prefix was not ASCII"@,
            TrackError::LengthNotHex => "length prefix was not hex"@,
            TrackError::UnexpectedEnd => "early eof"@,
        }
    }

    /// The sentence for this failure, given what a refusing server said.
    pub fn message_with(&self, said: &str) -> (s: String)
        ensures
            s@ == self.sentence(said@),
    {
        match self {
            TrackError::TimedOut => "timed out connecting to adb server".to_string(),
            TrackError::Refused(_) => {
                let mut s = "adb server returned FAIL: ".to_string();
                s.append(said);
                s
            },
            TrackError::UnexpectedStatus(a, b, c, d) => {
                let mut s = "unexpected adb server status: [".to_string();
                push_decimal(&mut s, *a as u64);
                s.append(", ");
                push_decimal(&mut s, *b as u64);
                s.append(", ");
                push_decimal(&mut s, *c as u64);
                s.append(", ");
                push_decimal(&mut s, *d as u64);
                s.append("]");
                s
            },
            TrackError::LengthNotAscii => "length prefix was not ASCII".to_string(),
            TrackError::LengthNotHex => "length prefix was not hex".to_string(),
            TrackError::UnexpectedEnd => "early eof".to_string(),
        }
    }

    /// The bytes a refusing server said.
    pub open spec fn said(self) -> Seq<u8> {
        match self {
            TrackError::Refused(bytes) => bytes@,
            _ => Seq::empty(),
        }
    }

    /// The sentence for this failure.
    pub fn message(&self) -> (s: String)
        ensures
            self is Refused ==> s@ == self.sentence(utf8_lossy(self.said())),
            !(self is Refused) ==> s@ == self.sentence(Seq::empty()),
    {
        match self {
            TrackError::Refused(bytes) => {
                let said = decode_lossy(bytes.as_slice());
                self.message_with(said.as_str())
            },
            _ => {
                let nothing = String::new();
                assert(nothing@ == Seq::<char>::empty());
                self.message_with(nothing.as_str())
            },
        }
    }
}

/// What was framed is taken out again as it was, along with whatever follows
/// it.
pub proof fn a_frame_comes_out_as_it_went_in(payload: Seq<u8>, rest: Seq<u8>)
    requires
        payload.len() <= 0xffff,
    ensures
        framing(framed(payload) + rest) == (Framing::Frame { payload, rest }),
{
    let n = payload.len();
    let bytes = framed(payload) + rest;
    lemma_four_hex_digits(n);
    hex_reads_back(n, 4);
    let header = bytes.take(4);
    assert(header == hex(n, 4));
    assert(bytes.subrange(4, 4 + n as int) == payload);
    assert(bytes.skip(4 + n as int) == rest);
}

/// A list of devices whose serials and states are plain is received as it
/// was sent, along with whatever follows it.
pub proof fn a_sent_list_is_received(devices: Seq<Entry>, rest: Seq<u8>)
    requires
        all_plain(devices),
        encode_utf8(list_for(devices)).len() <= 0xffff,
    ensures
        ({
            let payload = encode_utf8(list_for(devices));
            &&& framing(framed(payload) + rest) == (Framing::Frame { payload, rest })
            &&& valid_utf8(payload)
            &&& listed(lines(decode_utf8(payload))) == devices
        }),
{
    a_frame_comes_out_as_it_went_in(encode_utf8(list_for(devices)), rest);
    a_sent_list_reads_back(devices);
}

/// A frame that is whole stays what it is when more is read, so that it does
/// not matter in what pieces the bytes arrive.
pub proof fn more_bytes_change_no_frame(bytes: Seq<u8>, more: Seq<u8>)
    ensures
        match framing(bytes) {
            Framing::Frame { payload, rest } => framing(bytes + more) == (Framing::Frame {
                payload,
                rest: rest + more,
            }),
            Framing::LengthNotAscii => framing(bytes + more) is LengthNotAscii,
            Framing::LengthNotHex => framing(bytes + more) is LengthNotHex,
            Framing::Incomplete => true,
        },
{
    if bytes.len() >= 4 {
        assert((bytes + more).take(4) == bytes.take(4));
        match framing(bytes) {
            Framing::Frame { payload, rest } => {
                let length = hex_number(bytes.take(4)) as int;
                assert((bytes + more).subrange(4, 4 + length) == payload);
                assert((bytes + more).skip(4 + length) == rest + more);
            },
            _ => {},
        }
    }
}

/// The frames with `payloads` in them, one after the other.
pub open spec fn all_framed(payloads: Seq<Seq<u8>>) -> Seq<u8>
    decreases payloads.len(),
{
    if payloads.len() == 0 {
        Seq::empty()
    } else {
        framed(payloads.first()) + all_framed(payloads.drop_first())
    }
}

/// What is left after so many frames were taken off, if there were as many.
pub open spec fn after_frames(bytes: Seq<u8>, n: nat) -> Option<Seq<u8>>
    decreases n,
{
    if n == 0 {
        Some(bytes)
    } else {
        match framing(bytes) {
            Framing::Frame { rest, .. } => after_frames(rest, (n - 1) as nat),
            _ => None,
        }
    }
}

/// Frames that were sent one after the other are taken out one after the
/// other, each as it was, and nothing is left after the last.
pub proof fn frames_come_out_in_order(payloads: Seq<Seq<u8>>, i: int)
    requires
        0 <= i <= payloads.len(),
        forall|j: int| 0 <= j < payloads.len() ==> (#[trigger] payloads[j]).len() <= 0xffff,
    ensures
        after_frames(all_framed(payloads), i as nat) is Some,
        i < payloads.len() ==> {
            let bytes = after_frames(all_framed(payloads), i as nat)->0;
            framing(bytes) is Frame && framing(bytes)->payload == payloads[i]
        },
        i == payloads.len() ==> after_frames(all_framed(payloads), i as nat)->0 == Seq::<
            u8,
        >::empty(),
    decreases i,
{
    if payloads.len() > 0 {
        let rest = payloads.drop_first();
        assert(payloads[0] == payloads.first());
        a_frame_comes_out_as_it_went_in(payloads.first(), all_framed(rest));
        if i > 0 {
            assert forall|j: int| 0 <= j < rest.len() implies (#[trigger] rest[j]).len() <= 0xffff by {
                assert(rest[j] == payloads[j + 1]);
            }
            frames_come_out_in_order(rest, i - 1);
        }
    }
}

/// An answer stays what it is when more is read: what the server sends
/// after it is kept for later.
pub proof fn more_bytes_change_no_answer(bytes: Seq<u8>, more: Seq<u8>, ended: bool)
    ensures
        match answer(bytes, false) {
            Answer::Pending => true,
            Answer::Connected { rest } => answer(bytes + more, ended) == (Answer::Connected {
                rest: rest + more,
            }),
            other => answer(bytes + more, ended) == other,
        },
{
    if bytes.len() >= 4 {
        assert((bytes + more).take(4) == bytes.take(4));
        assert((bytes + more).skip(4) == bytes.skip(4) + more);
        more_bytes_change_no_frame(bytes.skip(4), more);
    }
}

} // verus!
