//! Relay decisions: what to do with a frame read on a TLS/TCP session, and
//! which destinations a session may reach.
use vstd::prelude::*;
use vstd::string::StringSliceAdditionalSpecFns;

use super::config::ServerConfig;
use crate::error::Failure;
use crate::protocol::frame::{decode_spec, encode_spec, Frame, FrameType, FrameView};
use super::policy::{destination_allowed, destination_allowed_by};

verus! {

/// What the TLS/TCP relay loop does after reading a chunk.
#[derive(Debug)]
pub enum RelayAction {
    /// Keep reading.
    Continue,
    /// Write these bytes back, then keep reading.
    Reply(Vec<u8>),
    /// Close the session.
    Stop,
}

/// The encoding of a version-1 pong on the control channel.
pub open spec fn pong_bytes() -> Seq<u8> {
    encode_spec(
        FrameView {
            version: 1,
            frame_type: FrameType::Pong,
            channel_id: 0,
            payload: Seq::empty(),
        },
    )
}

/// The relay's response to a chunk read from the client: a bad frame or a
/// shutdown ends the session, a ping is answered with a pong, anything else
/// (a stream-open request included) is passed over.
pub fn tcp_frame_action(buf: &[u8]) -> (a: RelayAction)
    ensures
        match decode_spec(buf@) {
            Err(_) => a is Stop,
            Ok(f) => match f.frame_type {
                FrameType::Ping => a matches RelayAction::Reply(b) && b@ == pong_bytes(),
                FrameType::Shutdown => a is Stop,
                _ => a is Continue,
            },
        },
{
    match Frame::decode(buf) {
        Err(_) => RelayAction::Stop,
        Ok(f) => match f.frame_type {
            FrameType::StreamOpen => RelayAction::Continue,
            FrameType::Ping => {
                let pong = Frame::pong();
                assert(pong@.payload =~= Seq::<u8>::empty());
                assert(pong@ == FrameView {
                    version: 1,
                    frame_type: FrameType::Pong,
                    channel_id: 0,
                    payload: Seq::empty(),
                });
                RelayAction::Reply(pong.encode())
            },
            FrameType::Shutdown => RelayAction::Stop,
            _ => RelayAction::Continue,
        },
    }
}

/// A chunk ends the session: it is not a frame, or it is a shutdown.
pub open spec fn chunk_stops(c: Seq<u8>) -> bool {
    match decode_spec(c) {
        Err(_) => true,
        Ok(f) => f.frame_type == FrameType::Shutdown,
    }
}

/// A chunk is a ping.
pub open spec fn chunk_pings(c: Seq<u8>) -> bool {
    decode_spec(c) matches Ok(f) && f.frame_type == FrameType::Ping
}

/// Some chunk of `chunks` ended the session.
pub open spec fn relay_stopped(chunks: Seq<Seq<u8>>) -> bool {
    exists|i: int| 0 <= i < chunks.len() && #[trigger] chunk_stops(chunks[i])
}

/// What the relay writes back, in order, for the chunks it read: a pong for
/// each ping, until the session ends.
pub open spec fn relay_replies(chunks: Seq<Seq<u8>>) -> Seq<Seq<u8>>
    decreases chunks.len(),
{
    if chunks.len() == 0 {
        Seq::empty()
    } else {
        let r = relay_replies(chunks.drop_last());
        if !relay_stopped(chunks.drop_last()) && chunk_pings(chunks.last()) {
            r.push(pong_bytes())
        } else {
            r
        }
    }
}

/// The number of pings among `chunks`.
pub open spec fn ping_count(chunks: Seq<Seq<u8>>) -> nat
    decreases chunks.len(),
{
    if chunks.len() == 0 {
        0
    } else {
        ping_count(chunks.drop_last()) + if chunk_pings(chunks.last()) {
            1nat
        } else {
            0nat
        }
    }
}

/// The relay loop of a TLS/TCP session: what it has read and written, and
/// whether it still reads.
pub struct TcpRelay {
    open: bool,
    seen: Ghost<Seq<Seq<u8>>>,
    sent: Ghost<Seq<Seq<u8>>>,
}

impl TcpRelay {
    /// The chunks read so far.
    pub closed spec fn seen(&self) -> Seq<Seq<u8>> {
        self.seen@
    }

    /// The replies written so far.
    pub closed spec fn sent(&self) -> Seq<Seq<u8>> {
        self.sent@
    }

    /// The session still reads.
    pub closed spec fn reading(&self) -> bool {
        self.open
    }

    /// It reads until a chunk ends the session, and has written exactly the
    /// replies its chunks call for.
    #[verifier::type_invariant]
    closed spec fn consistent(&self) -> bool {
        &&& self.open == !relay_stopped(self.seen@)
        &&& self.sent@ == relay_replies(self.seen@)
    }

    /// A relay that has read nothing.
    pub fn new() -> (r: Self)
        ensures
            r.reading(),
            r.seen() == Seq::<Seq<u8>>::empty(),
            r.sent() == Seq::<Seq<u8>>::empty(),
    {
        TcpRelay { open: true, seen: Ghost(Seq::empty()), sent: Ghost(Seq::empty()) }
    }

    /// Whether the session still reads.
    pub fn is_open(&self) -> (r: bool)
        ensures
            r == self.reading(),
    {
        self.open
    }

    /// Handles the next chunk read from the client: the action of
    /// `tcp_frame_action`, recorded.
    pub fn on_chunk(&mut self, chunk: &[u8]) -> (a: RelayAction)
        requires
            old(self).reading(),
        ensures
            final(self).seen() == old(self).seen().push(chunk@),
            final(self).reading() == !chunk_stops(chunk@),
            a is Stop == chunk_stops(chunk@),
            match a {
                RelayAction::Reply(b) => chunk_pings(chunk@) && b@ == pong_bytes()
                    && final(self).sent() == old(self).sent().push(b@),
                _ => !chunk_pings(chunk@) && final(self).sent() == old(self).sent(),
            },
    {
        proof {
            use_type_invariant(&*self);
        }
        let a = tcp_frame_action(chunk);
        let ghost old_seen = self.seen@;
        let ghost seen = old_seen.push(chunk@);
        assert(seen.drop_last() =~= old_seen);
        assert(relay_stopped(seen) == chunk_stops(chunk@)) by {
            if chunk_stops(chunk@) {
                assert(chunk_stops(seen[old_seen.len() as int]));
            }
            if relay_stopped(seen) {
                let i = choose|i: int| 0 <= i < seen.len() && #[trigger] chunk_stops(seen[i]);
                if i < old_seen.len() {
                    assert(chunk_stops(old_seen[i]));
                }
            }
        }
        let reply = match &a {
            RelayAction::Reply(_) => true,
            _ => false,
        };
        let stop = match &a {
            RelayAction::Stop => true,
            _ => false,
        };
        let ghost sent = if reply {
            self.sent@.push(pong_bytes())
        } else {
            self.sent@
        };
        *self = TcpRelay { open: !stop, seen: Ghost(seen), sent: Ghost(sent) };
        a
    }
}

/// The relay's whole output: while a session reads (every chunk but the last
/// left it open), it has written one pong for each ping it read and nothing
/// else.
pub proof fn lemma_relay_stream(chunks: Seq<Seq<u8>>)
    requires
        forall|i: int| 0 <= i < chunks.len() - 1 ==> !#[trigger] chunk_stops(chunks[i]),
    ensures
        relay_replies(chunks).len() == ping_count(chunks),
        forall|i: int| 0 <= i < relay_replies(chunks).len() ==> #[trigger] relay_replies(chunks)[i]
            == pong_bytes(),
    decreases chunks.len(),
{
    if chunks.len() > 0 {
        let pre = chunks.drop_last();
        assert forall|i: int| 0 <= i < pre.len() - 1 implies !#[trigger] chunk_stops(pre[i]) by {
            assert(pre[i] == chunks[i]);
        }
        lemma_relay_stream(pre);
        assert(!relay_stopped(pre)) by {
            if relay_stopped(pre) {
                let i = choose|i: int| 0 <= i < pre.len() && #[trigger] chunk_stops(pre[i]);
                assert(pre[i] == chunks[i]);
            }
        }
    }
}

/// Whether a relay to `dest` (`host:port`) is permitted by the node's
/// allowed destinations (see `policy`).
pub fn is_destination_allowed(dest: &str, config: &ServerConfig) -> (r: bool)
    ensures
        r == destination_allowed(dest@, config.node.allowed_destinations@),
{
    destination_allowed_by(dest, &config.node.allowed_destinations)
}

} // verus!

verus! {

/// The length of the first line of `b`: the bytes before its first `\n`
/// (all of `b` when it has none).
pub open spec fn line_len(b: Seq<u8>) -> nat
    decreases b.len(),
{
    if b.len() == 0 || b[0] == 10 {
        0
    } else {
        1 + line_len(b.drop_first())
    }
}

/// The first line of a relay stream's first read, `host:port`.
pub open spec fn header_line(b: Seq<u8>) -> Seq<u8> {
    b.subrange(0, line_len(b) as int)
}

/// What follows the first line and its `\n` in the first read: payload
/// for the destination.
pub open spec fn header_rest(b: Seq<u8>) -> Seq<u8> {
    if line_len(b) < b.len() {
        b.subrange((line_len(b) + 1) as int, b.len() as int)
    } else {
        Seq::empty()
    }
}

/// The destination a relay stream asks for: the first line of its first
/// message (`host:port\n`), as UTF-8 text without surrounding white space.
pub open spec fn stream_dest_spec(header: Seq<u8>) -> Option<Seq<char>> {
    if vstd::utf8::valid_utf8(header_line(header)) {
        Some(crate::text::trim_spec(vstd::utf8::decode_utf8(header_line(header))))
    } else {
        None
    }
}

proof fn lemma_line_len(b: Seq<u8>)
    ensures
        line_len(b) <= b.len(),
        line_len(b) < b.len() ==> b[line_len(b) as int] == 10,
        forall|j: int| 0 <= j < line_len(b) ==> b[j] != 10,
    decreases b.len(),
{
    if b.len() > 0 && b[0] != 10 {
        let t = b.drop_first();
        lemma_line_len(t);
        assert forall|j: int| 0 <= j < line_len(b) implies b[j] != 10 by {
            if j > 0 {
                assert(b[j] == t[j - 1]);
            }
        }
    }
}

/// The length of the first line of `b` (`line_len`).
fn first_line_len(b: &[u8]) -> (n: usize)
    ensures
        n == line_len(b@),
{
    let mut i: usize = 0;
    assert(b@.skip(0) =~= b@);
    while i < b.len() && b[i] != 10
        invariant
            i <= b.len(),
            line_len(b@) == i + line_len(b@.skip(i as int)),
        decreases b.len() - i,
    {
        assert(b@.skip(i as int).drop_first() =~= b@.skip(i + 1));
        i = i + 1;
    }
    i
}

/// Where a relay stream goes, and what it carries first: the destination
/// named by the first line of its first message, when that is UTF-8 and the
/// node allows it, with the bytes read after that line; otherwise an error.
pub fn tcp_relay_target(header: &[u8], config: &ServerConfig) -> (r: Result<(String, Vec<u8>), Failure>)
    ensures
        match stream_dest_spec(header@) {
            None => r matches Err(Failure::Message(t)) && t@
                == crate::text::utf8_error_message(header_line(header@)),
            Some(d) => if destination_allowed(d, config.node.allowed_destinations@) {
                r matches Ok((s, p)) && s@ == d && p@ == header_rest(header@)
            } else {
                r matches Err(Failure::Message(t)) && t@ == "Destination not allowed: "@ + d
            },
        },
{
    let n = first_line_len(header);
    proof {
        lemma_line_len(header@);
    }
    let line = crate::wire::copy_range(header, 0, n);
    let text = match crate::text::utf8_text(line.as_slice()) {
        Some(t) => t,
        None => {
            return Err(Failure::Message(crate::text::utf8_error_text(line.as_slice())));
        },
    };
    let dest = crate::text::trim(text.as_str());
    if !is_destination_allowed(dest.as_str(), config) {
        let mut m = String::new();
        crate::text::push_str(&mut m, "Destination not allowed: ");
        crate::text::push_str(&mut m, dest.as_str());
        return Err(Failure::Message(m));
    }
    let rest = if n < header.len() {
        crate::wire::copy_range(header, n + 1, header.len())
    } else {
        Vec::new()
    };
    Ok((dest, rest))
}

/// The first message a client sends on a relay stream: the destination's
/// UTF-8 bytes and a `\n`.
pub fn stream_header(dest: &str) -> (h: Vec<u8>)
    ensures
        h@ == dest.spec_bytes().push(10),
{
    let b = dest.as_bytes();
    let mut h: Vec<u8> = Vec::new();
    crate::wire::extend_range(&mut h, b, 0, b.len());
    h.push(10);
    assert(b@.subrange(0, b@.len() as int) =~= b@);
    h
}

} // verus!
