//! The typed, length-prefixed wire frame: `[type byte][length: u32 big-endian][payload]`.
//!
//! Frames are the sole unit of communication on a session connection. The
//! codec here is pure: encoding produces the exact byte sequence of a frame,
//! and decoding of a byte buffer is proved to be its inverse.

use vstd::prelude::*;

verus! {

/// The six frame types of the wire protocol.
#[derive(Clone, Copy, PartialEq, Eq, Structural, Debug)]
pub enum FrameType {
    ExecRequest,
    Stdin,
    Stdout,
    Stderr,
    Exit,
    Error,
}

/// The wire code of each frame type.
pub open spec fn spec_type_code(t: FrameType) -> u8 {
    match t {
        FrameType::ExecRequest => 1,
        FrameType::Stdin => 2,
        FrameType::Stdout => 3,
        FrameType::Stderr => 4,
        FrameType::Exit => 5,
        FrameType::Error => 6,
    }
}

/// The frame type a wire code stands for, if any.
pub open spec fn spec_type_of_code(v: u8) -> Option<FrameType> {
    if v == 1 {
        Some(FrameType::ExecRequest)
    } else if v == 2 {
        Some(FrameType::Stdin)
    } else if v == 3 {
        Some(FrameType::Stdout)
    } else if v == 4 {
        Some(FrameType::Stderr)
    } else if v == 5 {
        Some(FrameType::Exit)
    } else if v == 6 {
        Some(FrameType::Error)
    } else {
        None
    }
}

impl FrameType {
    /// The byte that stands for this frame type on the wire.
    pub fn code(self) -> (r: u8)
        ensures
            r == spec_type_code(self),
    {
        match self {
            FrameType::ExecRequest => 1,
            FrameType::Stdin => 2,
            FrameType::Stdout => 3,
            FrameType::Stderr => 4,
            FrameType::Exit => 5,
            FrameType::Error => 6,
        }
    }

    /// The frame type named by a wire byte; `None` for an unrecognized code.
    pub fn from_u8(v: u8) -> (r: Option<FrameType>)
        ensures
            r == spec_type_of_code(v),
    {
        match v {
            1 => Some(FrameType::ExecRequest),
            2 => Some(FrameType::Stdin),
            3 => Some(FrameType::Stdout),
            4 => Some(FrameType::Stderr),
            5 => Some(FrameType::Exit),
            6 => Some(FrameType::Error),
            _ => None,
        }
    }
}

/// Reading back the code of a frame type yields that frame type: type codes
/// are in one-to-one correspondence with frame types.
pub proof fn lemma_type_code_round_trip(t: FrameType)
    ensures
        spec_type_of_code(spec_type_code(t)) == Some(t),
{
}

/// The four big-endian bytes of a 32-bit value, most significant first.
pub open spec fn spec_u32_to_be(n: u32) -> Seq<u8> {
    seq![
        ((n >> 24) & 0xff) as u8,
        ((n >> 16) & 0xff) as u8,
        ((n >> 8) & 0xff) as u8,
        (n & 0xff) as u8,
    ]
}

/// The 32-bit value four big-endian bytes spell.
pub open spec fn spec_u32_from_be(b: Seq<u8>) -> u32
    recommends
        b.len() == 4,
{
    ((b[0] as u32) << 24) | ((b[1] as u32) << 16) | ((b[2] as u32) << 8) | (b[3] as u32)
}

/// Reading four big-endian bytes back gives the value they were made from.
pub proof fn lemma_u32_be_round_trip(n: u32)
    ensures
        spec_u32_from_be(spec_u32_to_be(n)) == n,
{
    assert(((((n >> 24) & 0xff) as u8 as u32) << 24) | ((((n >> 16) & 0xff) as u8 as u32)
        << 16) | ((((n >> 8) & 0xff) as u8 as u32) << 8) | ((n & 0xff) as u8 as u32)
        == n) by (bit_vector);
}

/// The four big-endian bytes of a 32-bit value, as a vector.
pub fn u32_to_be_bytes(n: u32) -> (r: Vec<u8>)
    ensures
        r@ == spec_u32_to_be(n),
{
    proof {
        assert((n >> 24) & 0xff <= 0xff && (n >> 16) & 0xff <= 0xff && (n >> 8) & 0xff
            <= 0xff && n & 0xff <= 0xff) by (bit_vector);
    }
    let mut r: Vec<u8> = Vec::new();
    r.push(((n >> 24) & 0xff) as u8);
    r.push(((n >> 16) & 0xff) as u8);
    r.push(((n >> 8) & 0xff) as u8);
    r.push((n & 0xff) as u8);
    proof {
        assert(r@ =~= spec_u32_to_be(n));
    }
    r
}

/// The 32-bit value spelled by the first four bytes of `b`.
pub fn u32_from_be_bytes(b: &[u8]) -> (r: u32)
    requires
        b@.len() == 4,
    ensures
        r == spec_u32_from_be(b@),
{
    ((b[0] as u32) << 24) | ((b[1] as u32) << 16) | ((b[2] as u32) << 8) | (b[3] as u32)
}

/// One whole frame: a type and its payload. On the wire it is the type byte,
/// the payload length as four big-endian bytes, then the payload.
pub struct Frame {
    pub frame_type: FrameType,
    pub payload: Vec<u8>,
}

/// The ghost mirror of a `Frame`.
pub ghost struct FrameView {
    pub frame_type: FrameType,
    pub payload: Seq<u8>,
}

impl View for Frame {
    type V = FrameView;

    open spec fn view(&self) -> FrameView {
        FrameView { frame_type: self.frame_type, payload: self.payload@ }
    }
}

/// A payload small enough for its length to ride in the frame header.
pub open spec fn payload_fits(payload: Seq<u8>) -> bool {
    payload.len() <= u32::MAX
}

/// The exact byte sequence of one frame on the wire.
pub open spec fn spec_frame_bytes(t: FrameType, payload: Seq<u8>) -> Seq<u8>
    recommends
        payload_fits(payload),
{
    seq![spec_type_code(t)] + spec_u32_to_be(payload.len() as u32) + payload
}

/// Append all of `src` to `dst`.
pub(crate) fn append_bytes(dst: &mut Vec<u8>, src: &[u8])
    requires
        old(dst)@.len() + src@.len() <= usize::MAX,
    ensures
        final(dst)@ == old(dst)@ + src@,
{
    let mut i: usize = 0;
    while i < src.len()
        invariant
            i <= src@.len(),
            old(dst)@.len() + src@.len() <= usize::MAX,
            dst@ == old(dst)@ + src@.subrange(0, i as int),
        decreases src@.len() - i,
    {
        dst.push(src[i]);
        proof {
            assert(dst@ =~= old(dst)@ + src@.subrange(0, i + 1));
        }
        i += 1;
    }
    proof {
        assert(dst@ =~= old(dst)@ + src@);
    }
}

/// Encode one frame: the type byte, the payload length as four big-endian
/// bytes, then the payload, as one contiguous buffer. Writing this buffer in
/// one critical section is what keeps frames atomic on a shared connection.
pub fn encode_frame(t: FrameType, payload: &[u8]) -> (r: Vec<u8>)
    requires
        payload_fits(payload@),
        payload@.len() + 5 <= usize::MAX,
    ensures
        r@ == spec_frame_bytes(t, payload@),
{
    let mut r: Vec<u8> = Vec::new();
    r.push(t.code());
    let len_bytes = u32_to_be_bytes(payload.len() as u32);
    append_bytes(&mut r, len_bytes.as_slice());
    append_bytes(&mut r, payload);
    proof {
        assert(r@ =~= spec_frame_bytes(t, payload@));
    }
    r
}

/// The unsigned 32-bit pattern of a signed status, two's complement.
pub open spec fn spec_i32_as_u32(s: i32) -> u32 {
    if s >= 0 {
        s as u32
    } else {
        (s + 0x1_0000_0000) as u32
    }
}

/// The four-byte payload of a terminal frame: the status, big-endian,
/// two's complement.
pub open spec fn spec_status_bytes(status: i32) -> Seq<u8> {
    spec_u32_to_be(spec_i32_as_u32(status))
}

/// The status payload of a terminal frame, as bytes.
fn status_to_be_bytes(status: i32) -> (r: Vec<u8>)
    ensures
        r@ == spec_status_bytes(status),
{
    let w: u32 = if status >= 0 {
        status as u32
    } else {
        ((status as i64) + 0x1_0000_0000i64) as u32
    };
    u32_to_be_bytes(w)
}

/// The whole `Exit` frame reporting the run child's status: sent exactly
/// once, after the run phase ends, as the session's last frame.
pub fn exit_frame_bytes(status: i32) -> (r: Vec<u8>)
    ensures
        r@ == spec_frame_bytes(FrameType::Exit, spec_status_bytes(status)),
{
    let payload = status_to_be_bytes(status);
    encode_frame(FrameType::Exit, payload.as_slice())
}

/// The whole `Error` frame reporting a failed build's status: the session's
/// last frame when the build phase fails, in place of an `Exit` frame.
pub fn error_frame_bytes(status: i32) -> (r: Vec<u8>)
    ensures
        r@ == spec_frame_bytes(FrameType::Error, spec_status_bytes(status)),
{
    let payload = status_to_be_bytes(status);
    encode_frame(FrameType::Error, payload.as_slice())
}

/// What a frame header says, read from a buffer's first five bytes.
#[derive(Clone, Copy, PartialEq, Eq, Structural, Debug)]
pub enum HeaderInfo {
    /// A recognized type byte and the payload length that follows.
    Valid { frame_type: FrameType, length: u32 },
    /// An unrecognized type byte: a framing error fatal to the session.
    BadType { code: u8 },
}

/// The meaning of a five-byte header.
pub open spec fn spec_parse_header(b: Seq<u8>) -> HeaderInfo
    recommends
        b.len() == 5,
{
    match spec_type_of_code(b[0]) {
        Some(t) => HeaderInfo::Valid {
            frame_type: t,
            length: spec_u32_from_be(b.subrange(1, 5)),
        },
        None => HeaderInfo::BadType { code: b[0] },
    }
}

/// Parse a frame header: the type byte, then the payload length, big-endian.
pub fn parse_header(b: &[u8]) -> (r: HeaderInfo)
    requires
        b@.len() == 5,
    ensures
        r == spec_parse_header(b@),
{
    match FrameType::from_u8(b[0]) {
        Some(t) => {
            let len = u32_from_be_bytes(&[b[1], b[2], b[3], b[4]]);
            proof {
                assert(seq![b@[1], b@[2], b@[3], b@[4]] =~= b@.subrange(1, 5));
            }
            HeaderInfo::Valid { frame_type: t, length: len }
        }
        None => HeaderInfo::BadType { code: b[0] },
    }
}

/// What decoding the front of a byte buffer yields.
pub enum DecodeResult {
    /// A whole frame sat at the front of the buffer, `consumed` bytes long.
    Complete { frame: Frame, consumed: usize },
    /// The buffer holds a partial header or a partial payload; more bytes
    /// are needed. A stream that closes here closed mid-frame.
    Incomplete,
    /// The first byte is not a frame type: a framing error fatal to the
    /// session.
    Malformed { code: u8 },
}

/// The ghost mirror of a `DecodeResult`.
pub ghost enum DecodeResultView {
    Complete { frame: FrameView, consumed: int },
    Incomplete,
    Malformed { code: u8 },
}

impl View for DecodeResult {
    type V = DecodeResultView;

    open spec fn view(&self) -> DecodeResultView {
        match self {
            DecodeResult::Complete { frame, consumed } => DecodeResultView::Complete {
                frame: frame@,
                consumed: *consumed as int,
            },
            DecodeResult::Incomplete => DecodeResultView::Incomplete,
            DecodeResult::Malformed { code } => DecodeResultView::Malformed { code: *code },
        }
    }
}

/// The meaning of the front of a byte buffer: a whole frame, a truncated
/// one, or a framing error.
pub open spec fn spec_decode_frame(b: Seq<u8>) -> DecodeResultView {
    if b.len() < 5 {
        DecodeResultView::Incomplete
    } else {
        match spec_type_of_code(b[0]) {
            None => DecodeResultView::Malformed { code: b[0] },
            Some(t) => {
                let l = spec_u32_from_be(b.subrange(1, 5)) as int;
                if b.len() < 5 + l {
                    DecodeResultView::Incomplete
                } else {
                    DecodeResultView::Complete {
                        frame: FrameView { frame_type: t, payload: b.subrange(5, 5 + l) },
                        consumed: 5 + l,
                    }
                }
            }
        }
    }
}

/// Decode the frame at the front of `buf`: five header bytes, then exactly
/// the announced number of payload bytes.
pub fn decode_frame(buf: &[u8]) -> (r: DecodeResult)
    ensures
        r@ == spec_decode_frame(buf@),
{
    if buf.len() < 5 {
        return DecodeResult::Incomplete;
    }
    let header = vstd::slice::slice_subrange(buf, 0, 5);
    match parse_header(header) {
        HeaderInfo::BadType { code } => {
            proof {
                assert(buf@.subrange(0, 5)[0] == buf@[0]);
            }
            DecodeResult::Malformed { code }
        }
        HeaderInfo::Valid { frame_type, length } => {
            proof {
                assert(buf@.subrange(0, 5)[0] == buf@[0]);
                assert(buf@.subrange(0, 5).subrange(1, 5) =~= buf@.subrange(1, 5));
            }
            let l = length as usize;
            if buf.len() - 5 < l {
                DecodeResult::Incomplete
            } else {
                let payload = vstd::slice::slice_to_vec(
                    vstd::slice::slice_subrange(buf, 5, 5 + l),
                );
                DecodeResult::Complete {
                    frame: Frame { frame_type, payload },
                    consumed: 5 + l,
                }
            }
        }
    }
}

/// The decode result a whole frame at the front of a buffer amounts to: the
/// frame itself, and its five header bytes plus payload consumed.
pub open spec fn spec_whole_frame(t: FrameType, payload: Seq<u8>) -> DecodeResultView {
    DecodeResultView::Complete {
        frame: FrameView { frame_type: t, payload },
        consumed: 5 + payload.len() as int,
    }
}

/// Law (one frame): decoding what `encode_frame` produced, with any suffix
/// behind it, yields exactly the encoded frame and consumes exactly its
/// bytes. Frame boundaries are therefore self-delimiting: bytes of a later
/// frame can never leak into an earlier one.
pub proof fn lemma_frame_decode_prefix(t: FrameType, payload: Seq<u8>, rest: Seq<u8>)
    requires
        payload_fits(payload),
    ensures
        spec_decode_frame(spec_frame_bytes(t, payload) + rest) == spec_whole_frame(t, payload),
{
    let b = spec_frame_bytes(t, payload) + rest;
    lemma_type_code_round_trip(t);
    assert(b[0] == spec_type_code(t));
    assert(b.subrange(1, 5) =~= spec_u32_to_be(payload.len() as u32));
    lemma_u32_be_round_trip(payload.len() as u32);
    assert(b.subrange(5, 5 + payload.len() as int) =~= payload);
}

/// Law (frame round trip): for every frame type and every payload whose
/// length rides in 32 bits, decoding the encoding gives back exactly that
/// type and payload.
pub proof fn lemma_frame_round_trip(t: FrameType, payload: Seq<u8>)
    requires
        payload_fits(payload),
    ensures
        spec_decode_frame(spec_frame_bytes(t, payload)) == spec_whole_frame(t, payload),
{
    assert(spec_frame_bytes(t, payload) + Seq::<u8>::empty() =~= spec_frame_bytes(t, payload));
    lemma_frame_decode_prefix(t, payload, Seq::<u8>::empty());
}

/// Every payload in the sequence fits a frame header.
pub open spec fn wf_frames(frames: Seq<FrameView>) -> bool {
    forall|i: int| 0 <= i < frames.len() ==> payload_fits(#[trigger] frames[i].payload)
}

/// The bytes of a sequence of whole frames, one after the other — what a
/// connection carries when every writer emits whole frames, each under the
/// write lock.
pub open spec fn spec_stream_bytes(frames: Seq<FrameView>) -> Seq<u8>
    decreases frames.len(),
{
    if frames.len() == 0 {
        Seq::empty()
    } else {
        spec_frame_bytes(frames[0].frame_type, frames[0].payload) + spec_stream_bytes(
            frames.drop_first(),
        )
    }
}

/// The frames a byte stream parses into, if it is exactly a sequence of
/// whole frames.
pub open spec fn spec_decode_stream(b: Seq<u8>) -> Option<Seq<FrameView>>
    decreases b.len(),
{
    if b.len() == 0 {
        Some(Seq::empty())
    } else {
        match spec_decode_frame(b) {
            DecodeResultView::Complete { frame, consumed } => {
                if 1 <= consumed <= b.len() {
                    match spec_decode_stream(b.skip(consumed)) {
                        Some(rest) => Some(seq![frame] + rest),
                        None => None,
                    }
                } else {
                    None
                }
            }
            _ => None,
        }
    }
}

/// Law (frame atomicity): a byte stream that is a concatenation of whole
/// frames decodes to exactly those frames, in order. When concurrent writers
/// each emit whole frames under mutual exclusion, the receiver sees exactly
/// their interleaving — never a header of one frame followed by payload
/// bytes of another.
#[verifier::rlimit(100)]
#[verifier::spinoff_prover]
pub proof fn lemma_stream_round_trip(frames: Seq<FrameView>)
    requires
        wf_frames(frames),
    ensures
        spec_decode_stream(spec_stream_bytes(frames)) == Some(frames),
    decreases frames.len(),
{
    if frames.len() == 0 {
        assert(spec_stream_bytes(frames).len() == 0);
        assert(Seq::<FrameView>::empty() =~= frames);
    } else {
        let f = frames[0];
        let rest = frames.drop_first();
        let fb = spec_frame_bytes(f.frame_type, f.payload);
        let rb = spec_stream_bytes(rest);
        let b = spec_stream_bytes(frames);
        assert(b == fb + rb);
        assert(payload_fits(f.payload));
        lemma_frame_decode_prefix(f.frame_type, f.payload, rb);
        assert(spec_decode_frame(b) == spec_whole_frame(f.frame_type, f.payload));
        let consumed = 5 + f.payload.len() as int;
        assert(fb.len() == consumed);
        assert(b.len() == consumed + rb.len());
        assert(b.skip(consumed) =~= rb);
        assert(wf_frames(rest)) by {
            assert(forall|i: int| 0 <= i < rest.len() ==> #[trigger] rest[i] == frames[i + 1]);
        }
        lemma_stream_round_trip(rest);
        assert(spec_decode_stream(b.skip(consumed)) == Some(rest));
        assert(spec_decode_stream(b) == Some(seq![f] + rest));
        assert(seq![f] + rest =~= frames);
    }
}

} // verus!
