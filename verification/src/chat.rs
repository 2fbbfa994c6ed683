//! Chat framing between peers: every message travels on its own unidirectional
//! stream as a 4-byte big-endian length followed by that many bytes of UTF-8 text.

use vstd::prelude::*;
use vstd::utf8::*;
use std::collections::VecDeque;
use crate::text::concat;

verus! {

broadcast use vstd::utf8::group_utf8_lib;

/// Largest message body, in bytes, that a chat reader accepts (64 KiB).
pub const MAX_CHAT_MESSAGE_LEN: usize = 65536;

/// A chat message received from a peer.
pub struct ChatMessage {
    pub from: String,
    pub text: String,
    pub timestamp: u64,
}

/// The value of four bytes read as a big-endian unsigned integer.
pub open spec fn be_u32_value(b: Seq<u8>) -> nat
    recommends
        b.len() == 4,
{
    (b[0] as nat) * 16777216 + (b[1] as nat) * 65536 + (b[2] as nat) * 256 + (b[3] as nat)
}

/// The length prefix written before a body of `len` bytes: the length is
/// converted to `u32` (keeping its low 32 bits) and written big-endian.
pub open spec fn spec_frame_header(len: nat) -> Seq<u8> {
    let v = len % 4294967296;
    seq![
        (v / 16777216) as u8,
        ((v / 65536) % 256) as u8,
        ((v / 256) % 256) as u8,
        (v % 256) as u8,
    ]
}

/// The whole frame sent for `text`: its length prefix, then its UTF-8 bytes.
pub open spec fn spec_chat_frame(text: Seq<char>) -> Seq<u8> {
    spec_frame_header(encode_utf8(text).len()) + encode_utf8(text)
}

/// Whether a reader takes a body of `len` bytes (neither empty nor over 64 KiB).
pub open spec fn acceptable_length(len: nat) -> bool {
    0 < len <= MAX_CHAT_MESSAGE_LEN
}

proof fn lemma_header_bytes(v: u32)
    ensures
        (v / 16777216) < 256,
        be_u32_value(
            seq![
                (v / 16777216) as u8,
                ((v / 65536) % 256) as u8,
                ((v / 256) % 256) as u8,
                (v % 256) as u8,
            ],
        ) == v as nat,
{
    assert(v / 16777216 < 256) by (bit_vector);
    assert(v == (v / 16777216) * 16777216 + ((v / 65536) % 256) * 65536 + ((v / 256) % 256) * 256
        + (v % 256)) by (bit_vector);
}

/// Builds the length prefix for a body of `len` bytes, as
/// `(len as u32).to_be_bytes()` does.
pub fn frame_header(len: usize) -> (h: [u8; 4])
    ensures
        h@ == spec_frame_header(len as nat),
        be_u32_value(h@) == len as nat % 4294967296,
{
    let v: u32 = ((len as u64) % 4294967296) as u32;
    proof {
        lemma_header_bytes(v);
    }
    let h = [(v / 16777216) as u8, ((v / 65536) % 256) as u8, ((v / 256) % 256) as u8, (v % 256) as u8];
    assert(h@ =~= spec_frame_header(len as nat));
    h
}

/// Reads a length prefix, as `u32::from_be_bytes(header) as usize` does.
pub fn frame_length(header: [u8; 4]) -> (n: usize)
    ensures
        n as nat == be_u32_value(header@),
{
    let v: u32 = (header[0] as u32) * 16777216 + (header[1] as u32) * 65536 + (header[2] as u32)
        * 256 + (header[3] as u32);
    v as usize
}

/// What a chat reader does after reading a length prefix.
pub enum FrameLength {
    /// The length is 0 or over 64 KiB: the message is skipped.
    Rejected(usize),
    /// A body of this many bytes follows and is read.
    Accepted(usize),
}

/// Decides, from a length prefix, whether the body that follows is read.
pub fn check_frame_length(header: [u8; 4]) -> (r: FrameLength)
    ensures
        ({
            let len = be_u32_value(header@);
            if acceptable_length(len) {
                r == FrameLength::Accepted(len as usize)
            } else {
                r == FrameLength::Rejected(len as usize)
            }
        }),
{
    let len = frame_length(header);
    if len == 0 || len > MAX_CHAT_MESSAGE_LEN {
        FrameLength::Rejected(len)
    } else {
        FrameLength::Accepted(len)
    }
}

/// Builds the frame that carries `text`: its length prefix followed by its UTF-8 bytes.
pub fn encode_chat_frame(text: &str) -> (frame: Vec<u8>)
    ensures
        frame@ == spec_chat_frame(text@),
{
    let bytes = text.as_bytes();
    let header = frame_header(bytes.len());
    let mut frame: Vec<u8> = Vec::new();
    frame.push(header[0]);
    frame.push(header[1]);
    frame.push(header[2]);
    frame.push(header[3]);
    let mut k: usize = 0;
    while k < bytes.len()
        invariant
            k <= bytes@.len(),
            frame@ == header@ + bytes@.subrange(0, k as int),
        decreases bytes.len() - k,
    {
        frame.push(bytes[k]);
        k = k + 1;
    }
    assert(bytes@.subrange(0, bytes@.len() as int) =~= bytes@);
    assert(header@ == spec_frame_header(encode_utf8(text@).len()));
    frame
}

/// Decodes a message body, through std's `String::from_utf8`, which succeeds
/// exactly when the bytes are well-formed UTF-8 and then holds the decoded text.
#[verifier::external_body]
fn utf8_text(body: Vec<u8>) -> (r: Option<String>)
    ensures
        r is Some <==> valid_utf8(body@),
        r matches Some(s) ==> s@ == decode_utf8(body@),
{
    String::from_utf8(body).ok()
}

/// Turns a received body into a chat message from `peer_id`, or `None` when the
/// body is not UTF-8 (the reader then skips it).
pub fn receive_chat_body(peer_id: &str, body: Vec<u8>, timestamp: u64) -> (r: Option<ChatMessage>)
    ensures
        r is Some <==> valid_utf8(body@),
        r matches Some(m) ==> m.from@ == peer_id@ && m.text@ == decode_utf8(body@) && m.timestamp
            == timestamp,
{
    match utf8_text(body) {
        Some(text) => Some(ChatMessage { from: peer_id.to_owned(), text, timestamp }),
        None => None,
    }
}

/// What a chat reader does next on a stream.
pub enum ReaderStep {
    /// The stream ended or broke mid-frame: the reader for this connection stops.
    Stop,
    /// The length prefix is 0 or over 64 KiB: the message is skipped.
    RejectLength(usize),
    /// A body of this many bytes is read next.
    ReadBody(usize),
    /// The body is not UTF-8: the message is skipped.
    RejectText,
    /// The message joins the inbox.
    Deliver(ChatMessage),
}

/// The reader's step once it has tried to read a length prefix (`None` when
/// that read failed).
pub fn reader_after_header(header: Option<[u8; 4]>) -> (r: ReaderStep)
    ensures
        match header {
            None => r is Stop,
            Some(h) => {
                let len = be_u32_value(h@);
                if acceptable_length(len) {
                    r == ReaderStep::ReadBody(len as usize)
                } else {
                    r == ReaderStep::RejectLength(len as usize)
                }
            },
        },
{
    match header {
        None => ReaderStep::Stop,
        Some(h) => match check_frame_length(h) {
            FrameLength::Accepted(len) => ReaderStep::ReadBody(len),
            FrameLength::Rejected(len) => ReaderStep::RejectLength(len),
        },
    }
}

/// The reader's step once it has tried to read a body from `peer_id` (`None`
/// when that read failed), at `timestamp` seconds since the Unix epoch.
pub fn reader_after_body(peer_id: &str, body: Option<Vec<u8>>, timestamp: u64) -> (r: ReaderStep)
    ensures
        match body {
            None => r is Stop,
            Some(b) => if valid_utf8(b@) {
                r matches ReaderStep::Deliver(m) && m.from@ == peer_id@ && m.text@ == decode_utf8(b@)
                    && m.timestamp == timestamp
            } else {
                r is RejectText
            },
        },
{
    match body {
        None => ReaderStep::Stop,
        Some(b) => match receive_chat_body(peer_id, b, timestamp) {
            Some(m) => ReaderStep::Deliver(m),
            None => ReaderStep::RejectText,
        },
    }
}

/// A frame built by [`encode_chat_frame`] for a message of 1 to 65536 bytes is read
/// back whole: its prefix is accepted with the body's length, and the body decodes
/// to the text that was sent.
pub proof fn lemma_chat_frame_roundtrip(text: Seq<char>)
    requires
        acceptable_length(encode_utf8(text).len()),
    ensures
        ({
            let frame = spec_chat_frame(text);
            let len = be_u32_value(frame.subrange(0, 4));
            &&& len == encode_utf8(text).len()
            &&& acceptable_length(len)
            &&& frame.len() == 4 + len
            &&& valid_utf8(frame.subrange(4, frame.len() as int))
            &&& decode_utf8(frame.subrange(4, frame.len() as int)) == text
        }),
{
    let bytes = encode_utf8(text);
    let frame = spec_chat_frame(text);
    let n = bytes.len();
    let v = n as u32;
    lemma_header_bytes(v);
    assert(n % 4294967296 == n);
    assert(frame.subrange(0, 4) =~= spec_frame_header(n));
    assert(frame.subrange(4, frame.len() as int) =~= bytes);
}

/// The connection a message to `peer_id` goes out on: the first live connection
/// whose remote NodeID is `peer_id`, or the error `no connection to peer <peer_id>`.
pub fn find_connection(remote_ids: &Vec<String>, peer_id: &str) -> (r: Result<usize, String>)
    ensures
        match r {
            Ok(i) => i < remote_ids@.len() && remote_ids@[i as int]@ == peer_id@ && forall|j: int|
                0 <= j < i ==> remote_ids@[j]@ != peer_id@,
            Err(e) => e@ == "no connection to peer "@ + peer_id@ && forall|j: int|
                0 <= j < remote_ids@.len() ==> remote_ids@[j]@ != peer_id@,
        },
{
    let target = peer_id.to_owned();
    let mut k: usize = 0;
    while k < remote_ids.len()
        invariant
            target@ == peer_id@,
            k <= remote_ids@.len(),
            forall|j: int| 0 <= j < k ==> remote_ids@[j]@ != peer_id@,
        decreases remote_ids.len() - k,
    {
        if remote_ids[k] == target {
            return Ok(k);
        }
        k = k + 1;
    }
    Err(concat("no connection to peer ", peer_id))
}

/// The queue of received chat messages waiting for the next poll.
pub struct ChatInbox {
    messages: VecDeque<ChatMessage>,
}

impl View for ChatInbox {
    type V = Seq<ChatMessage>;

    closed spec fn view(&self) -> Seq<ChatMessage> {
        self.messages@
    }
}

impl ChatInbox {
    /// An empty inbox.
    pub fn new() -> (r: ChatInbox)
        ensures
            r@ == Seq::<ChatMessage>::empty(),
    {
        ChatInbox { messages: VecDeque::new() }
    }

    /// Number of pending messages.
    pub fn len(&self) -> (n: usize)
        ensures
            n == self@.len(),
    {
        self.messages.len()
    }

    /// Appends a received message at the back of the queue.
    pub fn push(&mut self, message: ChatMessage)
        ensures
            final(self)@ == old(self)@.push(message),
    {
        self.messages.push_back(message);
    }

    /// Removes every pending message and returns them, oldest first.
    pub fn drain(&mut self) -> (r: Vec<ChatMessage>)
        ensures
            r@ == old(self)@,
            final(self)@ == Seq::<ChatMessage>::empty(),
    {
        let mut out: Vec<ChatMessage> = Vec::new();
        let ghost all = self@;
        while self.messages.len() > 0
            invariant
                out@ + self.messages@ == all,
            decreases self.messages@.len(),
        {
            match self.messages.pop_front() {
                Some(m) => {
                    out.push(m);
                    assert(out@ + self.messages@ =~= all);
                },
                None => {},
            }
        }
        assert(out@ =~= all);
        out
    }
}

} // verus!
