//! The wire frame that carries typed messages between nodes: a fixed header
//! with magic, type identifier, length and CRC-32 checksum, followed by the
//! message body. This module only frames and checks bytes; what the body
//! means is the receiver's business.

use vstd::prelude::*;

verus! {

/// Magic value that opens every frame.
pub const FRAME_MAGIC: u32 = 0x4204_2042;

/// Total size of the header: magic (4), type id (8), length (4), checksum
/// (4).
pub const HEADER_SIZE: usize = 20;

/// What can go wrong while framing or unframing a message.
#[derive(Clone, Copy, PartialEq, Eq, Debug)]
pub enum CodecError {
    /// The frame does not open with [`FRAME_MAGIC`].
    InvalidMagic {
        /// The magic that was read.
        magic: u32,
    },
    /// The declared length cannot hold a header, or the body does not fit
    /// the length field.
    InvalidLength {
        /// The length that was read or requested.
        length: u32,
    },
    /// The declared checksum does not match the recomputed one.
    ChecksumMismatch {
        /// The checksum the frame declared.
        declared: u32,
        /// The checksum computed over the frame.
        computed: u32,
    },
    /// The stream ended in the middle of a frame.
    UnexpectedEof,
}

/// Header of a typed message frame.
#[derive(Clone, Copy, PartialEq, Eq, Debug)]
pub struct Header {
    /// Always [`FRAME_MAGIC`] on the wire.
    pub magic: u32,
    /// Type identifier of the message.
    pub type_id: u64,
    /// Length of the frame including this header.
    pub length: u32,
    /// CRC-32 of the whole frame with this field zeroed.
    pub checksum: u32,
}

/// The checksum of `data`, as CRC-32 computes it.
pub uninterp spec fn crc32_of(data: Seq<u8>) -> u32;

/// Relies on crc32fast::hash: the CRC-32 (IEEE) checksum of the bytes, a
/// function of the bytes alone.
#[verifier::external_body]
fn crc32(data: &[u8]) -> (r: u32)
    ensures
        r == crc32_of(data@),
{
    crc32fast::hash(data)
}

/// Big-endian bytes of a 32-bit value.
pub open spec fn u32_be(x: u32) -> Seq<u8> {
    seq![(x >> 24) as u8, (x >> 16) as u8, (x >> 8) as u8, x as u8]
}

/// Big-endian bytes of a 64-bit value.
pub open spec fn u64_be(x: u64) -> Seq<u8> {
    seq![
        (x >> 56) as u8,
        (x >> 48) as u8,
        (x >> 40) as u8,
        (x >> 32) as u8,
        (x >> 24) as u8,
        (x >> 16) as u8,
        (x >> 8) as u8,
        x as u8,
    ]
}

/// The 32-bit value four big-endian bytes hold.
pub open spec fn u32_from_be(b: Seq<u8>) -> u32
    recommends
        b.len() == 4,
{
    (((b[0] as u32) << 24) | ((b[1] as u32) << 16) | ((b[2] as u32) << 8) | (b[3] as u32)) as u32
}

/// The 64-bit value eight big-endian bytes hold.
pub open spec fn u64_from_be(b: Seq<u8>) -> u64
    recommends
        b.len() == 8,
{
    (((b[0] as u64) << 56) | ((b[1] as u64) << 48) | ((b[2] as u64) << 40) | ((b[3] as u64) << 32)
        | ((b[4] as u64) << 24) | ((b[5] as u64) << 16) | ((b[6] as u64) << 8) | (
    b[7] as u64)) as u64
}

/// Reading back big-endian bytes gives the 32-bit value they came from.
pub proof fn lemma_u32_be_roundtrip(x: u32)
    ensures
        u32_from_be(u32_be(x)) == x,
{
    assert((((((x >> 24) as u8) as u32) << 24) | ((((x >> 16) as u8) as u32) << 16) | ((((x
        >> 8) as u8) as u32) << 8) | (((x as u8) as u32))) as u32 == x) by (bit_vector);
}

/// Reading back big-endian bytes gives the 64-bit value they came from.
pub proof fn lemma_u64_be_roundtrip(x: u64)
    ensures
        u64_from_be(u64_be(x)) == x,
{
    assert((((((x >> 56) as u8) as u64) << 56) | ((((x >> 48) as u8) as u64) << 48) | ((((x
        >> 40) as u8) as u64) << 40) | ((((x >> 32) as u8) as u64) << 32) | ((((x
        >> 24) as u8) as u64) << 24) | ((((x >> 16) as u8) as u64) << 16) | ((((x
        >> 8) as u8) as u64) << 8) | (((x as u8) as u64))) as u64 == x) by (bit_vector);
}

/// The twenty header bytes, in wire order.
pub open spec fn header_bytes(h: Header) -> Seq<u8> {
    u32_be(h.magic) + u64_be(h.type_id) + u32_be(h.length) + u32_be(h.checksum)
}

/// The checksum a well-formed frame declares: CRC-32 over the frame with the
/// checksum field zeroed.
pub open spec fn frame_checksum(type_id: u64, message: Seq<u8>) -> u32 {
    crc32_of(
        header_bytes(
            Header {
                magic: FRAME_MAGIC,
                type_id,
                length: (HEADER_SIZE + message.len()) as u32,
                checksum: 0,
            },
        ) + message,
    )
}

/// The bytes of a whole frame for `message` under `type_id`.
pub open spec fn frame_bytes(type_id: u64, message: Seq<u8>) -> Seq<u8> {
    header_bytes(
        Header {
            magic: FRAME_MAGIC,
            type_id,
            length: (HEADER_SIZE + message.len()) as u32,
            checksum: frame_checksum(type_id, message),
        },
    ) + message
}

/// What encoding yields: the frame, or a length error when the body cannot
/// be measured by the 32-bit length field.
pub open spec fn encode_frame_spec(type_id: u64, message: Seq<u8>) -> Result<Seq<u8>, CodecError> {
    if HEADER_SIZE + message.len() > u32::MAX {
        Err(CodecError::InvalidLength { length: u32::MAX })
    } else {
        Ok(frame_bytes(type_id, message))
    }
}

/// What decoding yields on a buffer: `None` while the buffer still lacks
/// bytes, the error a malformed header or checksum earns, or the message
/// type, body and consumed length of the first whole frame.
pub open spec fn decode_frame_spec(buf: Seq<u8>) -> Result<
    Option<(u64, Seq<u8>, int)>,
    CodecError,
> {
    if buf.len() < HEADER_SIZE {
        Ok(None)
    } else {
        let magic = u32_from_be(buf.subrange(0, 4));
        let type_id = u64_from_be(buf.subrange(4, 12));
        let length = u32_from_be(buf.subrange(12, 16));
        let checksum = u32_from_be(buf.subrange(16, 20));
        if magic != FRAME_MAGIC {
            Err(CodecError::InvalidMagic { magic })
        } else if length < HEADER_SIZE {
            Err(CodecError::InvalidLength { length })
        } else if buf.len() < length {
            Ok(None)
        } else {
            let computed = crc32_of(
                buf.subrange(0, 16) + seq![0u8, 0u8, 0u8, 0u8] + buf.subrange(
                    HEADER_SIZE as int,
                    length as int,
                ),
            );
            if computed != checksum {
                Err(CodecError::ChecksumMismatch { declared: checksum, computed })
            } else {
                Ok(Some((type_id, buf.subrange(HEADER_SIZE as int, length as int), length as int)))
            }
        }
    }
}

impl Header {
    /// A header for `type_id` with length and checksum still unset.
    pub fn new(type_id: u64) -> (r: Header)
        ensures
            r == (Header { magic: FRAME_MAGIC, type_id, length: 0, checksum: 0 }),
    {
        Header { magic: FRAME_MAGIC, type_id, length: 0, checksum: 0 }
    }

    /// The checks possible before the whole frame has arrived: the magic
    /// must match and the length must cover the header.
    pub fn preliminary_check(&self) -> (r: Result<(), CodecError>)
        ensures
            r == if self.magic != FRAME_MAGIC {
                Err::<(), CodecError>(CodecError::InvalidMagic { magic: self.magic })
            } else if self.length < HEADER_SIZE as u32 {
                Err::<(), CodecError>(CodecError::InvalidLength { length: self.length })
            } else {
                Ok::<(), CodecError>(())
            },
    {
        if self.magic != FRAME_MAGIC {
            Err(CodecError::InvalidMagic { magic: self.magic })
        } else if self.length < HEADER_SIZE as u32 {
            Err(CodecError::InvalidLength { length: self.length })
        } else {
            Ok(())
        }
    }
}

/// Appends the big-endian bytes of a 32-bit value.
fn push_u32_be(out: &mut Vec<u8>, x: u32)
    ensures
        final(out)@ == old(out)@ + u32_be(x),
{
    out.push((x >> 24) as u8);
    out.push((x >> 16) as u8);
    out.push((x >> 8) as u8);
    out.push(x as u8);
    proof {
        assert(out@ =~= old(out)@ + u32_be(x));
    }
}

/// Appends the big-endian bytes of a 64-bit value.
fn push_u64_be(out: &mut Vec<u8>, x: u64)
    ensures
        final(out)@ == old(out)@ + u64_be(x),
{
    out.push((x >> 56) as u8);
    out.push((x >> 48) as u8);
    out.push((x >> 40) as u8);
    out.push((x >> 32) as u8);
    out.push((x >> 24) as u8);
    out.push((x >> 16) as u8);
    out.push((x >> 8) as u8);
    out.push(x as u8);
    proof {
        assert(out@ =~= old(out)@ + u64_be(x));
    }
}

/// Appends a header in wire order.
fn push_header(out: &mut Vec<u8>, h: &Header)
    ensures
        final(out)@ == old(out)@ + header_bytes(*h),
{
    push_u32_be(out, h.magic);
    push_u64_be(out, h.type_id);
    push_u32_be(out, h.length);
    push_u32_be(out, h.checksum);
    proof {
        assert(out@ =~= old(out)@ + header_bytes(*h));
    }
}

/// Appends `count` bytes of `src` starting at `from`.
fn push_bytes(out: &mut Vec<u8>, src: &Vec<u8>, from: usize, count: usize)
    requires
        from + count <= src@.len(),
    ensures
        final(out)@ == old(out)@ + src@.subrange(from as int, from as int + count as int),
{
    let n = src.len();
    let mut i: usize = 0;
    while i < count
        invariant
            i <= count,
            from + count <= n,
            n == src@.len(),
            out@ == old(out)@ + src@.subrange(from as int, from as int + i as int),
        decreases count - i,
    {
        proof {
            assert(out@.push(src@[from as int + i as int]) =~= old(out)@ + src@.subrange(
                from as int,
                from as int + i as int + 1,
            ));
        }
        out.push(src[from + i]);
        i = i + 1;
    }
}

/// The 32-bit value at `offset`.
fn read_u32_be(buf: &Vec<u8>, offset: usize) -> (r: u32)
    requires
        offset + 4 <= buf@.len(),
    ensures
        r == u32_from_be(buf@.subrange(offset as int, offset as int + 4)),
{
    let n = buf.len();
    ((buf[offset] as u32) << 24u32) | ((buf[offset + 1] as u32) << 16u32) | ((buf[offset
        + 2] as u32) << 8u32) | (buf[offset + 3] as u32)
}

/// The 64-bit value at `offset`.
fn read_u64_be(buf: &Vec<u8>, offset: usize) -> (r: u64)
    requires
        offset + 8 <= buf@.len(),
    ensures
        r == u64_from_be(buf@.subrange(offset as int, offset as int + 8)),
{
    let n = buf.len();
    ((buf[offset] as u64) << 56u64) | ((buf[offset + 1] as u64) << 48u64) | ((buf[offset
        + 2] as u64) << 40u64) | ((buf[offset + 3] as u64) << 32u64) | ((buf[offset
        + 4] as u64) << 24u64) | ((buf[offset + 5] as u64) << 16u64) | ((buf[offset
        + 6] as u64) << 8u64) | (buf[offset + 7] as u64)
}

/// Frames `message` under `type_id`: header with length and CRC-32, then the
/// body.
pub fn encode_frame(type_id: u64, message: &Vec<u8>) -> (r: Result<Vec<u8>, CodecError>)
    ensures
        match r {
            Ok(out) => encode_frame_spec(type_id, message@) == Ok::<Seq<u8>, CodecError>(out@),
            Err(e) => encode_frame_spec(type_id, message@) == Err::<Seq<u8>, CodecError>(e),
        },
{
    if message.len() > (u32::MAX as usize) - HEADER_SIZE {
        return Err(CodecError::InvalidLength { length: u32::MAX });
    }
    let length = (HEADER_SIZE + message.len()) as u32;
    let zeroed = Header { magic: FRAME_MAGIC, type_id, length, checksum: 0 };
    let mut for_checksum: Vec<u8> = Vec::new();
    push_header(&mut for_checksum, &zeroed);
    push_bytes(&mut for_checksum, message, 0, message.len());
    proof {
        assert(message@.subrange(0, message@.len() as int) =~= message@);
    }
    let checksum = crc32(for_checksum.as_slice());
    let mut out: Vec<u8> = Vec::new();
    push_header(&mut out, &Header { magic: FRAME_MAGIC, type_id, length, checksum });
    push_bytes(&mut out, message, 0, message.len());
    proof {
        assert(message@.subrange(0, message@.len() as int) =~= message@);
        assert(out@ =~= frame_bytes(type_id, message@));
    }
    Ok(out)
}

/// Decodes the first whole frame of `buf`, if one has arrived: checks magic,
/// length and checksum, and hands back the message type, the body and how
/// many bytes the frame took.
pub fn decode_frame(buf: &Vec<u8>) -> (r: Result<Option<(u64, Vec<u8>, usize)>, CodecError>)
    ensures
        match r {
            Ok(Some((type_id, body, consumed))) => decode_frame_spec(buf@) == Ok::<
                Option<(u64, Seq<u8>, int)>,
                CodecError,
            >(Some((type_id, body@, consumed as int))),
            Ok(None) => decode_frame_spec(buf@) == Ok::<Option<(u64, Seq<u8>, int)>, CodecError>(
                None,
            ),
            Err(e) => decode_frame_spec(buf@) == Err::<Option<(u64, Seq<u8>, int)>, CodecError>(e),
        },
{
    if buf.len() < HEADER_SIZE {
        return Ok(None);
    }
    let magic = read_u32_be(buf, 0);
    let type_id = read_u64_be(buf, 4);
    let length = read_u32_be(buf, 12);
    let checksum = read_u32_be(buf, 16);
    if magic != FRAME_MAGIC {
        return Err(CodecError::InvalidMagic { magic });
    }
    if length < HEADER_SIZE as u32 {
        return Err(CodecError::InvalidLength { length });
    }
    if buf.len() < length as usize {
        return Ok(None);
    }
    let mut zeroed: Vec<u8> = Vec::new();
    push_bytes(&mut zeroed, buf, 0, 16);
    zeroed.push(0);
    zeroed.push(0);
    zeroed.push(0);
    zeroed.push(0);
    push_bytes(&mut zeroed, buf, HEADER_SIZE, length as usize - HEADER_SIZE);
    proof {
        assert(zeroed@ =~= buf@.subrange(0, 16) + seq![0u8, 0u8, 0u8, 0u8] + buf@.subrange(
            HEADER_SIZE as int,
            length as int,
        ));
    }
    let computed = crc32(zeroed.as_slice());
    if computed != checksum {
        return Err(CodecError::ChecksumMismatch { declared: checksum, computed });
    }
    let mut body: Vec<u8> = Vec::new();
    push_bytes(&mut body, buf, HEADER_SIZE, length as usize - HEADER_SIZE);
    Ok(Some((type_id, body, length as usize)))
}

/// Decoding its own encoding gives the message back: the frame is accepted,
/// carries the same type identifier and body, and consumes exactly its
/// length.
pub proof fn lemma_frame_roundtrip(type_id: u64, message: Seq<u8>)
    requires
        HEADER_SIZE + message.len() <= u32::MAX,
    ensures
        decode_frame_spec(frame_bytes(type_id, message)) == Ok::<
            Option<(u64, Seq<u8>, int)>,
            CodecError,
        >(Some((type_id, message, HEADER_SIZE + message.len() as int))),
{
    let length = (HEADER_SIZE + message.len()) as u32;
    let checksum = frame_checksum(type_id, message);
    let h = Header { magic: FRAME_MAGIC, type_id, length, checksum };
    let frame = frame_bytes(type_id, message);
    assert(frame.len() == HEADER_SIZE + message.len());
    assert(frame.subrange(0, 4) =~= u32_be(FRAME_MAGIC));
    assert(frame.subrange(4, 12) =~= u64_be(type_id));
    assert(frame.subrange(12, 16) =~= u32_be(length));
    assert(frame.subrange(16, 20) =~= u32_be(checksum));
    lemma_u32_be_roundtrip(FRAME_MAGIC);
    lemma_u64_be_roundtrip(type_id);
    lemma_u32_be_roundtrip(length);
    lemma_u32_be_roundtrip(checksum);
    assert(HEADER_SIZE as u32 <= length) by {
        assert(message.len() >= 0);
    };
    let zeroed = Header { magic: FRAME_MAGIC, type_id, length, checksum: 0 };
    assert(u32_be(0) =~= seq![0u8, 0u8, 0u8, 0u8]) by {
        assert((0u32 >> 24) as u8 == 0 && (0u32 >> 16) as u8 == 0 && (0u32 >> 8) as u8 == 0
            && 0u32 as u8 == 0) by (bit_vector);
    };
    assert(frame.subrange(0, 16) + seq![0u8, 0u8, 0u8, 0u8] + frame.subrange(
        HEADER_SIZE as int,
        length as int,
    ) =~= header_bytes(zeroed) + message);
    assert(frame.subrange(HEADER_SIZE as int, length as int) =~= message);
}

} // verus!
