use vstd::prelude::*;

verus! {

/// The four big-endian bytes of `n`.
pub open spec fn be_bytes(n: u32) -> Seq<u8> {
    seq![(n >> 24u32) as u8, (n >> 16u32) as u8, (n >> 8u32) as u8, n as u8]
}

/// The number that four big-endian bytes spell.
pub open spec fn be_value(b0: u8, b1: u8, b2: u8, b3: u8) -> u32 {
    ((b0 as u32) << 24u32) | ((b1 as u32) << 16u32) | ((b2 as u32) << 8u32) | (b3 as u32)
}

/// A message on the wire: its length in four big-endian bytes, then its bytes.
pub open spec fn frame_spec(payload: Seq<u8>) -> Seq<u8> {
    be_bytes(payload.len() as u32) + payload
}

/// What the front of a receive buffer holds.
#[derive(Debug)]
pub enum FrameDecode {
    /// Not a whole frame yet: read more bytes.
    Incomplete,
    /// A whole frame: its payload, and how many buffer bytes it took.
    Complete { payload: Vec<u8>, consumed: usize },
    /// The frame announces more than the receiver accepts.
    TooLarge { declared: u32 },
}

/// What `decode_frame` finds at the front of `buf`.
pub enum FrameView {
    Incomplete,
    Complete { payload: Seq<u8>, consumed: nat },
    TooLarge { declared: u32 },
}

pub open spec fn decode_frame_spec(buf: Seq<u8>, max_len: nat) -> FrameView {
    if buf.len() < 4 {
        FrameView::Incomplete
    } else {
        let n = be_value(buf[0], buf[1], buf[2], buf[3]);
        if n > max_len {
            FrameView::TooLarge { declared: n }
        } else if buf.len() < 4 + n {
            FrameView::Incomplete
        } else {
            FrameView::Complete { payload: buf.subrange(4, 4 + n), consumed: (4 + n) as nat }
        }
    }
}

impl View for FrameDecode {
    type V = FrameView;

    open spec fn view(&self) -> FrameView {
        match self {
            FrameDecode::Incomplete => FrameView::Incomplete,
            FrameDecode::Complete { payload, consumed } => FrameView::Complete { payload: payload@, consumed: *consumed as nat },
            FrameDecode::TooLarge { declared } => FrameView::TooLarge { declared: *declared },
        }
    }
}

/// Frames `payload` for the wire; `None` when its length does not fit the
/// four-byte header.
pub fn encode_frame(payload: &Vec<u8>) -> (r: Option<Vec<u8>>)
    ensures
        payload@.len() <= u32::MAX ==> (r matches Some(f) && f@ == frame_spec(payload@)),
        payload@.len() > u32::MAX ==> r is None,
{
    if payload.len() > 0xFFFF_FFFFusize {
        return None;
    }
    let n = payload.len() as u32;
    let mut out: Vec<u8> = Vec::new();
    out.push((n >> 24u32) as u8);
    out.push((n >> 16u32) as u8);
    out.push((n >> 8u32) as u8);
    out.push(n as u8);
    let mut i: usize = 0;
    while i < payload.len()
        invariant
            i <= payload@.len(),
            out@ == be_bytes(n) + payload@.subrange(0, i as int),
        decreases payload@.len() - i,
    {
        out.push(payload[i]);
        i = i + 1;
        assert(out@ =~= be_bytes(n) + payload@.subrange(0, i as int));
    }
    assert(payload@.subrange(0, payload@.len() as int) =~= payload@);
    Some(out)
}

/// Looks for one frame at the front of `buf`, accepting payloads of at most
/// `max_len` bytes.
pub fn decode_frame(buf: &Vec<u8>, max_len: usize) -> (r: FrameDecode)
    ensures
        r@ == decode_frame_spec(buf@, max_len as nat),
{
    if buf.len() < 4 {
        return FrameDecode::Incomplete;
    }
    let n: u32 = ((buf[0] as u32) << 24u32) | ((buf[1] as u32) << 16u32) | ((buf[2] as u32) << 8u32) | (buf[3] as u32);
    if n as usize > max_len {
        return FrameDecode::TooLarge { declared: n };
    }
    let end = n as usize;
    if buf.len() - 4 < end {
        return FrameDecode::Incomplete;
    }
    let mut payload: Vec<u8> = Vec::new();
    let mut i: usize = 0;
    while i < end
        invariant
            i <= end,
            4 + end <= buf.len(),
            payload@ == buf@.subrange(4, 4 + i),
        decreases end - i,
    {
        payload.push(buf[4 + i]);
        i = i + 1;
        assert(payload@ =~= buf@.subrange(4, 4 + i));
    }
    FrameDecode::Complete { payload, consumed: 4 + end }
}

proof fn lemma_be_round_trip(n: u32)
    ensures
        be_value((n >> 24u32) as u8, (n >> 16u32) as u8, (n >> 8u32) as u8, n as u8) == n,
{
    assert(((((n >> 24u32) as u8) as u32) << 24u32) | ((((n >> 16u32) as u8) as u32) << 16u32)
        | ((((n >> 8u32) as u8) as u32) << 8u32) | ((n as u8) as u32) == n) by (bit_vector);
}

/// A framed payload, whatever bytes follow it, decodes to that payload and
/// takes exactly its frame, when the receiver accepts its length.
pub proof fn lemma_frame_round_trip(payload: Seq<u8>, rest: Seq<u8>, max_len: nat)
    requires
        payload.len() <= max_len,
        payload.len() <= u32::MAX,
    ensures
        decode_frame_spec(frame_spec(payload) + rest, max_len) == (FrameView::Complete {
            payload,
            consumed: 4 + payload.len(),
        }),
{
    let n = payload.len() as u32;
    lemma_be_round_trip(n);
    let buf = frame_spec(payload) + rest;
    assert(buf[0] == (n >> 24u32) as u8);
    assert(buf[1] == (n >> 16u32) as u8);
    assert(buf[2] == (n >> 8u32) as u8);
    assert(buf[3] == n as u8);
    assert(buf.subrange(4, 4 + n) =~= payload);
}

} // verus!
