use vstd::prelude::*;
use crate::error::ConvertError;

verus! {

/// Size in bytes of the fixed container header.
pub const HEADER_LEN: usize = 76;

/// Length of the first padding region.
pub const PADDING_LEN: usize = 2;

/// Length of the second padding region (it ends at offset 0x2c).
pub const PADDING2_LEN: usize = 36;

/// Stream metadata stored after the padding of the header.
#[derive(Debug, Clone, Copy, PartialEq, Eq, Structural)]
pub struct OmvMetadata {
    pub width: u32,
    pub height: u32,
    pub frame_time: u32,
    pub stream_id: u32,
    pub stream_id2: u32,
    pub unknown: u32,
    pub data_pack_count: u32,
    pub frame_count: u32,
}

/// The fixed-layout container header; the padding is kept verbatim.
#[derive(Debug, Clone)]
pub struct OmvHeader {
    pub offset: u32,
    pub major_version: u8,
    pub minor_version: u8,
    pub padding: Vec<u8>,
    pub padding2: Vec<u8>,
    pub metadata: OmvMetadata,
}

/// The little-endian value of four bytes.
pub open spec fn u32_from_le(b0: u8, b1: u8, b2: u8, b3: u8) -> u32 {
    (b0 as u32) | ((b1 as u32) << 8u32) | ((b2 as u32) << 16u32) | ((b3 as u32) << 24u32)
}

/// The four little-endian bytes of a value.
pub open spec fn le_bytes(v: u32) -> Seq<u8> {
    seq![
        (v & 0xffu32) as u8,
        ((v >> 8u32) & 0xffu32) as u8,
        ((v >> 16u32) & 0xffu32) as u8,
        (v >> 24u32) as u8,
    ]
}

pub open spec fn metadata_bytes(m: OmvMetadata) -> Seq<u8> {
    le_bytes(m.width) + le_bytes(m.height) + le_bytes(m.frame_time) + le_bytes(m.stream_id)
        + le_bytes(m.stream_id2) + le_bytes(m.unknown) + le_bytes(m.data_pack_count)
        + le_bytes(m.frame_count)
}

impl OmvHeader {
    /// Both padding regions have their fixed lengths.
    pub open spec fn wf(&self) -> bool {
        self.padding@.len() == PADDING_LEN && self.padding2@.len() == PADDING2_LEN
    }

    /// The header's on-disk encoding.
    pub open spec fn bytes(&self) -> Seq<u8> {
        le_bytes(self.offset) + seq![self.major_version, self.minor_version] + self.padding@
            + self.padding2@ + metadata_bytes(self.metadata)
    }

    /// Encodes the header in its fixed little-endian layout.
    pub fn to_bytes(&self) -> (r: Vec<u8>)
        ensures
            r@ == self.bytes(),
    {
        let mut out: Vec<u8> = Vec::new();
        push_u32_le(&mut out, self.offset);
        out.push(self.major_version);
        out.push(self.minor_version);
        extend_bytes(&mut out, &self.padding);
        extend_bytes(&mut out, &self.padding2);
        let m = &self.metadata;
        push_u32_le(&mut out, m.width);
        push_u32_le(&mut out, m.height);
        push_u32_le(&mut out, m.frame_time);
        push_u32_le(&mut out, m.stream_id);
        push_u32_le(&mut out, m.stream_id2);
        push_u32_le(&mut out, m.unknown);
        push_u32_le(&mut out, m.data_pack_count);
        push_u32_le(&mut out, m.frame_count);
        assert(out@ =~= self.bytes());
        out
    }
}

fn push_u32_le(out: &mut Vec<u8>, v: u32)
    ensures
        final(out)@ == old(out)@ + le_bytes(v),
{
    out.push((v & 0xffu32) as u8);
    out.push(((v >> 8u32) & 0xffu32) as u8);
    out.push(((v >> 16u32) & 0xffu32) as u8);
    out.push((v >> 24u32) as u8);
    assert(final(out)@ =~= old(out)@ + le_bytes(v));
}

fn extend_bytes(out: &mut Vec<u8>, src: &Vec<u8>)
    ensures
        final(out)@ == old(out)@ + src@,
{
    let ghost start = out@;
    let mut i: usize = 0;
    while i < src.len()
        invariant
            i <= src@.len(),
            out@ == start + src@.subrange(0, i as int),
        decreases src@.len() - i,
    {
        out.push(src[i]);
        i += 1;
        assert(out@ =~= start + src@.subrange(0, i as int));
    }
    assert(src@.subrange(0, i as int) =~= src@);
}

fn copy_range(b: &[u8], start: usize, len: usize) -> (r: Vec<u8>)
    requires
        start + len <= b@.len(),
    ensures
        r@ == b@.subrange(start as int, start + len),
{
    let mut out: Vec<u8> = Vec::new();
    let n = b.len();
    let mut i: usize = 0;
    while i < len
        invariant
            i <= len,
            n == b@.len(),
            start + len <= b@.len(),
            out@ == b@.subrange(start as int, start + i),
        decreases len - i,
    {
        assert(start + i < b@.len());
        out.push(b[start + i]);
        i += 1;
        assert(out@ =~= b@.subrange(start as int, start + i));
    }
    out
}

proof fn lemma_le_bytes_of_value(b0: u8, b1: u8, b2: u8, b3: u8)
    ensures
        le_bytes(u32_from_le(b0, b1, b2, b3)) == seq![b0, b1, b2, b3],
{
    let (x0, x1, x2, x3) = (b0 as u32, b1 as u32, b2 as u32, b3 as u32);
    let v = u32_from_le(b0, b1, b2, b3);
    assert(v == x0 | (x1 << 8u32) | (x2 << 16u32) | (x3 << 24u32));
    assert(x0 < 256 && x1 < 256 && x2 < 256 && x3 < 256);
    assert((x0 | (x1 << 8u32) | (x2 << 16u32) | (x3 << 24u32)) & 0xffu32 == x0
        && ((x0 | (x1 << 8u32) | (x2 << 16u32) | (x3 << 24u32)) >> 8u32) & 0xffu32 == x1
        && ((x0 | (x1 << 8u32) | (x2 << 16u32) | (x3 << 24u32)) >> 16u32) & 0xffu32 == x2
        && (x0 | (x1 << 8u32) | (x2 << 16u32) | (x3 << 24u32)) >> 24u32 == x3) by (bit_vector)
        requires
            x0 < 256 && x1 < 256 && x2 < 256 && x3 < 256,
    ;
    assert(le_bytes(v) =~= seq![b0, b1, b2, b3]);
}

proof fn lemma_value_of_le_bytes(v: u32)
    ensures
        u32_from_le(le_bytes(v)[0], le_bytes(v)[1], le_bytes(v)[2], le_bytes(v)[3]) == v,
{
    let x0 = v & 0xffu32;
    let x1 = (v >> 8u32) & 0xffu32;
    let x2 = (v >> 16u32) & 0xffu32;
    let x3 = v >> 24u32;
    assert(x0 < 256 && x1 < 256 && x2 < 256 && x3 < 256 && (x0 | (x1 << 8u32) | (x2 << 16u32)
        | (x3 << 24u32)) == v) by (bit_vector)
        requires
            x0 == v & 0xffu32,
            x1 == (v >> 8u32) & 0xffu32,
            x2 == (v >> 16u32) & 0xffu32,
            x3 == v >> 24u32,
    ;
    assert(le_bytes(v)[0] as u32 == x0);
    assert(le_bytes(v)[1] as u32 == x1);
    assert(le_bytes(v)[2] as u32 == x2);
    assert(le_bytes(v)[3] as u32 == x3);
}

fn read_u32_le(b: &[u8], at: usize) -> (r: u32)
    requires
        at + 4 <= b@.len(),
    ensures
        r == u32_from_le(b@[at as int], b@[at + 1], b@[at + 2], b@[at + 3]),
        le_bytes(r) == b@.subrange(at as int, at + 4),
{
    let r = (b[at] as u32) | ((b[at + 1] as u32) << 8u32) | ((b[at + 2] as u32) << 16u32) | ((
    b[at + 3] as u32) << 24u32);
    proof {
        lemma_le_bytes_of_value(b@[at as int], b@[at + 1], b@[at + 2], b@[at + 3]);
        assert(b@.subrange(at as int, at + 4) =~= seq![
            b@[at as int],
            b@[at + 1],
            b@[at + 2],
            b@[at + 3],
        ]);
    }
    r
}

/// Reads the fixed header from the start of `b`; only a short buffer is refused.
pub fn parse_header(b: &[u8]) -> (r: Result<OmvHeader, ConvertError>)
    ensures
        b@.len() < HEADER_LEN <==> r == Err::<OmvHeader, ConvertError>(
            ConvertError::TruncatedHeader,
        ),
        b@.len() >= HEADER_LEN <==> r is Ok,
        r is Ok ==> r->Ok_0.wf() && r->Ok_0.bytes() == b@.subrange(0, HEADER_LEN as int),
{
    if b.len() < HEADER_LEN {
        return Err(ConvertError::TruncatedHeader);
    }
    let offset = read_u32_le(b, 0);
    let padding = copy_range(b, 6, PADDING_LEN);
    let padding2 = copy_range(b, 8, PADDING2_LEN);
    let width = read_u32_le(b, 44);
    let height = read_u32_le(b, 48);
    let frame_time = read_u32_le(b, 52);
    let stream_id = read_u32_le(b, 56);
    let stream_id2 = read_u32_le(b, 60);
    let unknown = read_u32_le(b, 64);
    let data_pack_count = read_u32_le(b, 68);
    let frame_count = read_u32_le(b, 72);
    let h = OmvHeader {
        offset,
        major_version: b[4],
        minor_version: b[5],
        padding,
        padding2,
        metadata: OmvMetadata {
            width,
            height,
            frame_time,
            stream_id,
            stream_id2,
            unknown,
            data_pack_count,
            frame_count,
        },
    };
    proof {
        let s = b@;
        assert(h.bytes() =~= s.subrange(0, 76));
    }
    Ok(h)
}

/// Encoding a well-formed header and reading it back gives the same header.
pub proof fn lemma_header_encoding_round_trip(h: OmvHeader, g: OmvHeader)
    requires
        h.wf(),
        g.wf(),
        g.bytes() == h.bytes(),
    ensures
        g.offset == h.offset,
        g.major_version == h.major_version,
        g.minor_version == h.minor_version,
        g.padding@ == h.padding@,
        g.padding2@ == h.padding2@,
        g.metadata == h.metadata,
{
    let s = h.bytes();
    let t = g.bytes();
    assert forall|k: int| 0 <= k < 8 implies #[trigger] metadata_u32(g.metadata, k) == metadata_u32(h.metadata, k) by {
        let at = 44 + 4 * k;
        lemma_value_of_le_bytes(metadata_u32(h.metadata, k));
        lemma_value_of_le_bytes(metadata_u32(g.metadata, k));
        lemma_metadata_slot(h, k);
        lemma_metadata_slot(g, k);
        assert(t.subrange(at, at + 4) == s.subrange(at, at + 4));
    }
    assert(metadata_u32(g.metadata, 0) == metadata_u32(h.metadata, 0));
    assert(metadata_u32(g.metadata, 1) == metadata_u32(h.metadata, 1));
    assert(metadata_u32(g.metadata, 2) == metadata_u32(h.metadata, 2));
    assert(metadata_u32(g.metadata, 3) == metadata_u32(h.metadata, 3));
    assert(metadata_u32(g.metadata, 4) == metadata_u32(h.metadata, 4));
    assert(metadata_u32(g.metadata, 5) == metadata_u32(h.metadata, 5));
    assert(metadata_u32(g.metadata, 6) == metadata_u32(h.metadata, 6));
    assert(metadata_u32(g.metadata, 7) == metadata_u32(h.metadata, 7));
    lemma_value_of_le_bytes(h.offset);
    lemma_value_of_le_bytes(g.offset);
    assert(t[0] == s[0] && t[1] == s[1] && t[2] == s[2] && t[3] == s[3]);
    assert(t[4] == s[4] && t[5] == s[5]);
    assert(g.padding@ =~= t.subrange(6, 8));
    assert(h.padding@ =~= s.subrange(6, 8));
    assert(g.padding2@ =~= t.subrange(8, 44));
    assert(h.padding2@ =~= s.subrange(8, 44));
}

/// The `k`-th metadata field, in layout order.
spec fn metadata_u32(m: OmvMetadata, k: int) -> u32 {
    if k == 0 {
        m.width
    } else if k == 1 {
        m.height
    } else if k == 2 {
        m.frame_time
    } else if k == 3 {
        m.stream_id
    } else if k == 4 {
        m.stream_id2
    } else if k == 5 {
        m.unknown
    } else if k == 6 {
        m.data_pack_count
    } else {
        m.frame_count
    }
}

proof fn lemma_metadata_slot(h: OmvHeader, k: int)
    requires
        h.wf(),
        0 <= k < 8,
    ensures
        h.bytes().subrange(44 + 4 * k, 48 + 4 * k) == le_bytes(metadata_u32(h.metadata, k)),
{
    let m = h.metadata;
    let s = h.bytes();
    let ms = metadata_bytes(m);
    assert(s.subrange(44, 76) =~= ms);
    assert(s.subrange(44 + 4 * k, 48 + 4 * k) =~= ms.subrange(4 * k, 4 * k + 4));
    if k == 0 {
        assert(ms.subrange(0, 4) =~= le_bytes(m.width));
    } else if k == 1 {
        assert(ms.subrange(4, 8) =~= le_bytes(m.height));
    } else if k == 2 {
        assert(ms.subrange(8, 12) =~= le_bytes(m.frame_time));
    } else if k == 3 {
        assert(ms.subrange(12, 16) =~= le_bytes(m.stream_id));
    } else if k == 4 {
        assert(ms.subrange(16, 20) =~= le_bytes(m.stream_id2));
    } else if k == 5 {
        assert(ms.subrange(20, 24) =~= le_bytes(m.unknown));
    } else if k == 6 {
        assert(ms.subrange(24, 28) =~= le_bytes(m.data_pack_count));
    } else {
        assert(ms.subrange(28, 32) =~= le_bytes(m.frame_count));
    }
}

/// Parsing a buffer of exactly the header's size and encoding the result
/// reproduces the buffer.
pub proof fn lemma_parse_then_encode(b: Seq<u8>, h: OmvHeader)
    requires
        b.len() == HEADER_LEN,
        h.wf(),
        h.bytes() == b.subrange(0, HEADER_LEN as int),
    ensures
        h.bytes() == b,
{
    assert(b.subrange(0, HEADER_LEN as int) =~= b);
}

} // verus!
