//! Length-prefixed framing: a frame is a 4-byte little-endian length
//! followed by that many payload bytes. Declared lengths above
//! `MAX_FRAME_LEN` are refused before any payload is read or allocated.
use vstd::prelude::*;

verus! {

/// The largest payload a frame may declare: 16 MiB.
pub const MAX_FRAME_LEN: usize = 16777216;

/// Why a byte stream does not hold a usable frame.
#[derive(Clone, Copy, Debug, PartialEq, Eq, Structural)]
pub enum FrameError {
    /// The stream ends before the length prefix or the payload it declares.
    Truncated,
    /// The length prefix, or a payload to be framed, exceeds `MAX_FRAME_LEN`.
    TooLarge { declared: usize },
}

/// The number that four bytes hold, least significant first.
pub open spec fn le_u32(b: Seq<u8>) -> nat
    recommends
        b.len() >= 4,
{
    (b[0] as nat) + 256 * ((b[1] as nat) + 256 * ((b[2] as nat) + 256 * (b[3] as nat)))
}

/// The four little-endian bytes of `n`, for `n` below 2^32.
pub open spec fn le_bytes(n: nat) -> Seq<u8> {
    seq![
        (n % 256) as u8,
        (n / 256 % 256) as u8,
        (n / 256 / 256 % 256) as u8,
        (n / 256 / 256 / 256 % 256) as u8,
    ]
}

/// The frame that carries `payload`.
pub open spec fn frame_of(payload: Seq<u8>) -> Seq<u8> {
    le_bytes(payload.len()) + payload
}

/// What a 4-byte length prefix admits: the payload length, or why not.
pub open spec fn header_spec(header: Seq<u8>) -> Result<usize, FrameError> {
    if le_u32(header) > MAX_FRAME_LEN {
        Err(FrameError::TooLarge { declared: le_u32(header) as usize })
    } else {
        Ok(le_u32(header) as usize)
    }
}

/// The first frame at the start of `bytes`: its payload and the number of
/// bytes it takes up, or why there is none.
pub open spec fn parse_frame(bytes: Seq<u8>) -> Result<(Seq<u8>, nat), FrameError> {
    if bytes.len() < 4 {
        Err(FrameError::Truncated)
    } else {
        match header_spec(bytes) {
            Err(e) => Err(e),
            Ok(n) => if bytes.len() < 4 + n {
                Err(FrameError::Truncated)
            } else {
                Ok((bytes.subrange(4, 4 + n), (4 + n) as nat))
            },
        }
    }
}

/// Reading the bytes of a number below 2^32 gives the number back.
pub proof fn lemma_le_round_trip(n: nat)
    requires
        n < 0x1_0000_0000,
    ensures
        le_u32(le_bytes(n)) == n,
        le_bytes(n).len() == 4,
{
    let b = le_bytes(n);
    let q1 = n / 256;
    let q2 = q1 / 256;
    let q3 = q2 / 256;
    assert(n == 256 * q1 + n % 256);
    assert(q1 == 256 * q2 + q1 % 256);
    assert(q2 == 256 * q3 + q2 % 256);
    assert(q3 < 256);
    assert(b[0] as nat == n % 256);
    assert(b[1] as nat == q1 % 256);
    assert(b[2] as nat == q2 % 256);
    assert(b[3] as nat == q3);
}

/// Decoding what was framed gives back the payload, whatever follows it in
/// the stream, and consumes exactly the frame.
pub proof fn lemma_frame_round_trip(payload: Seq<u8>, rest: Seq<u8>)
    requires
        payload.len() <= MAX_FRAME_LEN,
    ensures
        parse_frame(frame_of(payload) + rest) == Ok::<(Seq<u8>, nat), FrameError>(
            (payload, frame_of(payload).len()),
        ),
{
    let f = frame_of(payload);
    let s = f + rest;
    lemma_le_round_trip(payload.len());
    assert(s.subrange(0, 4) =~= le_bytes(payload.len()));
    assert(le_u32(s) == le_u32(s.subrange(0, 4)));
    assert(s.subrange(4, 4 + payload.len() as int) =~= payload);
}

/// The length that a 4-byte little-endian prefix declares.
pub fn read_le_u32(b: &[u8]) -> (r: u32)
    requires
        b@.len() >= 4,
    ensures
        r as nat == le_u32(b@),
{
    let v: u32 = b[0] as u32 + 256 * (b[1] as u32 + 256 * (b[2] as u32 + 256 * (b[3] as u32)));
    v
}

/// The 4-byte little-endian prefix of a payload of `len` bytes.
pub fn length_prefix(len: u32) -> (r: [u8; 4])
    ensures
        r@ == le_bytes(len as nat),
{
    let r: [u8; 4] = [
        (len % 256) as u8,
        (len / 256 % 256) as u8,
        (len / 256 / 256 % 256) as u8,
        (len / 256 / 256 / 256 % 256) as u8,
    ];
    assert(r@ =~= le_bytes(len as nat));
    r
}

/// The payload length that a received prefix admits.
pub fn payload_len(header: [u8; 4]) -> (r: Result<usize, FrameError>)
    ensures
        r == header_spec(header@),
{
    let n = read_le_u32(&header) as usize;
    if n > MAX_FRAME_LEN {
        Err(FrameError::TooLarge { declared: n })
    } else {
        Ok(n)
    }
}

/// Frames `payload`: its length prefix followed by its bytes.
pub fn encode_frame(payload: &[u8]) -> (r: Result<Vec<u8>, FrameError>)
    ensures
        payload@.len() <= MAX_FRAME_LEN ==> (r matches Ok(f) && f@ == frame_of(payload@)),
        payload@.len() > MAX_FRAME_LEN ==> r == Err::<Vec<u8>, FrameError>(
            FrameError::TooLarge { declared: payload@.len() as usize },
        ),
{
    let len = payload.len();
    if len > MAX_FRAME_LEN {
        return Err(FrameError::TooLarge { declared: len });
    }
    let prefix = length_prefix(len as u32);
    let mut out: Vec<u8> = Vec::new();
    let mut i: usize = 0;
    while i < 4
        invariant
            0 <= i <= 4,
            prefix@.len() == 4,
            out@ == prefix@.subrange(0, i as int),
        decreases 4 - i,
    {
        out.push(prefix[i]);
        assert(prefix@.subrange(0, i + 1) =~= prefix@.subrange(0, i as int).push(prefix@[i as int]));
        i = i + 1;
    }
    let mut j: usize = 0;
    while j < len
        invariant
            0 <= j <= len,
            len == payload@.len(),
            prefix@.len() == 4,
            out@ == prefix@ + payload@.subrange(0, j as int),
        decreases len - j,
    {
        out.push(payload[j]);
        assert(payload@.subrange(0, j + 1) =~= payload@.subrange(0, j as int).push(payload@[j as int]));
        assert(prefix@ + payload@.subrange(0, j + 1) =~= (prefix@ + payload@.subrange(0, j as int)).push(payload@[j as int]));
        j = j + 1;
    }
    assert(payload@.subrange(0, len as int) =~= payload@);
    Ok(out)
}

/// Takes the first frame off `bytes`: its payload and the number of bytes
/// it took up.
pub fn decode_frame(bytes: &[u8]) -> (r: Result<(Vec<u8>, usize), FrameError>)
    ensures
        match parse_frame(bytes@) {
            Ok((p, used)) => r matches Ok((v, u)) && v@ == p && u as nat == used,
            Err(e) => r == Err::<(Vec<u8>, usize), FrameError>(e),
        },
{
    if bytes.len() < 4 {
        return Err(FrameError::Truncated);
    }
    let header: [u8; 4] = [bytes[0], bytes[1], bytes[2], bytes[3]];
    assert(le_u32(header@) == le_u32(bytes@));
    let n = match payload_len(header) {
        Err(e) => return Err(e),
        Ok(n) => n,
    };
    let total = bytes.len();
    if total - 4 < n {
        return Err(FrameError::Truncated);
    }
    let mut out: Vec<u8> = Vec::new();
    let mut j: usize = 0;
    while j < n
        invariant
            0 <= j <= n,
            total == bytes@.len(),
            4 + n <= total,
            out@ == bytes@.subrange(4, 4 + j),
        decreases n - j,
    {
        out.push(bytes[4 + j]);
        assert(bytes@.subrange(4, 4 + j + 1) =~= bytes@.subrange(4, 4 + j).push(bytes@[4 + j]));
        j = j + 1;
    }
    Ok((out, 4 + n))
}

} // verus!
