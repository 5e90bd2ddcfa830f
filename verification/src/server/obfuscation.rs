//! Obfuscation pipeline: size normalization and random padding of
//! outgoing frames, and idle noise.
use rand::Rng;
use vstd::prelude::*;

use crate::protocol::frame::{encode_spec, lemma_frame_roundtrip, decode_spec, Frame, FrameDecodeFailure, FrameType, FrameView};
use crate::wire::extend_range;

verus! {

/// A uniformly random number in `low..=high` (`rand::thread_rng` then
/// `Rng::gen_range`). Only the range is determined.
#[verifier::external_body]
fn random_in(low: usize, high: usize) -> (r: usize)
    requires
        low <= high,
    ensures
        low <= r <= high,
{
    rand::thread_rng().gen_range(low..=high)
}

/// The size a packet of `len` bytes is brought to: the first common HTTPS
/// size (576, 1024, 1280, 1460, 2048, 4096, 8192) that is `len` itself or
/// leaves room for a padding frame (its 10-byte header included); `len`
/// itself when there is none.
pub open spec fn normalize_target(len: nat) -> nat {
    if len == 576 || len + 10 <= 576 {
        576
    } else if len == 1024 || len + 10 <= 1024 {
        1024
    } else if len == 1280 || len + 10 <= 1280 {
        1280
    } else if len == 1460 || len + 10 <= 1460 {
        1460
    } else if len == 2048 || len + 10 <= 2048 {
        2048
    } else if len == 4096 || len + 10 <= 4096 {
        4096
    } else if len == 8192 || len + 10 <= 8192 {
        8192
    } else {
        len
    }
}

/// The encoding of a padding frame with `n` zero bytes.
pub open spec fn padding_frame_bytes(n: nat) -> Seq<u8> {
    encode_spec(
        FrameView {
            version: 1,
            frame_type: FrameType::Padding,
            channel_id: 0,
            payload: Seq::new(n, |i: int| 0u8),
        },
    )
}

/// `data` followed by a padding frame that brings it exactly to its target
/// size.
pub open spec fn normalized(data: Seq<u8>) -> Seq<u8> {
    let t = normalize_target(data.len());
    if t == data.len() {
        data
    } else {
        data + padding_frame_bytes((t - data.len() - 10) as nat)
    }
}

/// `data` followed by a padding frame of `p` bytes, when `p` is not zero.
pub open spec fn padded(data: Seq<u8>, p: nat) -> Seq<u8> {
    if p == 0 {
        data
    } else {
        data + padding_frame_bytes(p)
    }
}

/// Obfuscation settings for outgoing traffic.
pub struct ObfuscationLayer {
    padding_enabled: bool,
    size_normalization: bool,
}

impl ObfuscationLayer {
    /// Random padding is on.
    pub closed spec fn pads(&self) -> bool {
        self.padding_enabled
    }

    /// Size normalization is on.
    pub closed spec fn normalizes(&self) -> bool {
        self.size_normalization
    }

    /// A layer with the given settings.
    pub fn new(padding_enabled: bool, size_normalization: bool) -> (l: Self)
        ensures
            l.pads() == padding_enabled,
            l.normalizes() == size_normalization,
    {
        ObfuscationLayer { padding_enabled, size_normalization }
    }

    /// Encodes an outgoing frame; normalization takes precedence over
    /// random padding.
    pub fn wrap_outgoing(&self, frame: Frame) -> (out: Vec<u8>)
        ensures
            self.normalizes() ==> out@ == normalized(encode_spec(frame@)),
            self.normalizes() ==> out@.len() == normalize_target(encode_spec(frame@).len()),
            !self.normalizes() && self.pads() ==> exists|p: nat|
                p <= 64 && out@ == #[trigger] padded(encode_spec(frame@), p),
            !self.normalizes() && !self.pads() ==> out@ == encode_spec(frame@),
    {
        let encoded = frame.encode();
        if self.size_normalization {
            self.normalize_size(encoded)
        } else if self.padding_enabled {
            self.add_random_padding(encoded)
        } else {
            encoded
        }
    }

    /// Pads `data` up to its target size with a padding frame.
    fn normalize_size(&self, data: Vec<u8>) -> (out: Vec<u8>)
        ensures
            out@ == normalized(data@),
    {
        let len = data.len();
        let target: usize = if len == 576 || (len <= 576 - 10) {
            576
        } else if len == 1024 || (len <= 1024 - 10) {
            1024
        } else if len == 1280 || (len <= 1280 - 10) {
            1280
        } else if len == 1460 || (len <= 1460 - 10) {
            1460
        } else if len == 2048 || (len <= 2048 - 10) {
            2048
        } else if len == 4096 || (len <= 4096 - 10) {
            4096
        } else if len == 8192 || (len <= 8192 - 10) {
            8192
        } else {
            len
        };
        if target == len {
            return data;
        }
        let pad_frame = Frame::padding(target - len - 10).encode();
        let mut buf = data;
        extend_range(&mut buf, pad_frame.as_slice(), 0, pad_frame.len());
        assert(pad_frame@.subrange(0, pad_frame@.len() as int) =~= pad_frame@);
        buf
    }

    /// Appends a padding frame of a random size up to 64 bytes (none when
    /// the size drawn is zero).
    fn add_random_padding(&self, data: Vec<u8>) -> (out: Vec<u8>)
        ensures
            exists|p: nat| p <= 64 && out@ == #[trigger] padded(data@, p),
    {
        let pad_size = random_in(0, 64);
        if pad_size == 0 {
            assert(data@ == padded(data@, 0));
            return data;
        }
        let pad_frame = Frame::padding(pad_size).encode();
        let mut buf = data;
        extend_range(&mut buf, pad_frame.as_slice(), 0, pad_frame.len());
        assert(pad_frame@.subrange(0, pad_frame@.len() as int) =~= pad_frame@);
        assert(buf@ == padded(data@, pad_size as nat));
        buf
    }

    /// An idle noise packet: a padding frame of 32 to 127 zero bytes.
    pub fn generate_noise() -> (out: Vec<u8>)
        ensures
            exists|n: nat| 32 <= n < 128 && out@ == #[trigger] padding_frame_bytes(n),
    {
        let size = random_in(32, 127);
        let out = Frame::padding(size).encode();
        assert(out@ == padding_frame_bytes(size as nat));
        out
    }
}

/// Whatever the obfuscation appends, the receiver still decodes the
/// original frame first: both normalized and padded output begin with the
/// frame's encoding.
pub proof fn lemma_obfuscated_frame_decodes(f: FrameView, p: nat)
    requires
        f.payload.len() <= u32::MAX,
    ensures
        decode_spec(normalized(encode_spec(f))) == Ok::<FrameView, FrameDecodeFailure>(f),
        decode_spec(padded(encode_spec(f), p)) == Ok::<FrameView, FrameDecodeFailure>(f),
{
    let e = encode_spec(f);
    let t = normalize_target(e.len());
    if t == e.len() {
        lemma_frame_roundtrip(f, Seq::empty());
        assert(e + Seq::<u8>::empty() =~= e);
    } else {
        lemma_frame_roundtrip(f, padding_frame_bytes((t - e.len() - 10) as nat));
    }
    if p == 0 {
        lemma_frame_roundtrip(f, Seq::empty());
        assert(e + Seq::<u8>::empty() =~= e);
    } else {
        lemma_frame_roundtrip(f, padding_frame_bytes(p));
    }
}

/// Normalized output has exactly the target size: a common HTTPS size, or
/// the input's own size when no common size fits it.
pub proof fn lemma_normalized_len(data: Seq<u8>)
    ensures
        normalized(data).len() == normalize_target(data.len()),
        normalize_target(data.len()) >= data.len(),
{
}

} // verus!
