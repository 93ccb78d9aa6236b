//! The IDX layout of the two streams: magic numbers, header widths, record
//! widths, and where in a stream each record lies.

use vstd::prelude::*;

verus! {

/// Magic number of a stream of images.
pub const IMAGE_FILE: u32 = 2051;

/// Magic number of a stream of labels.
pub const LABEL_FILE: u32 = 2049;

/// Rows, and columns, of one image.
pub const IMAGE_SIDE: u32 = 28;

/// Bytes of one image record: one per pixel, row by row.
pub const BYTES_PER_IMAGE: u32 = 784;

/// Which of the two streams a sequence of bytes is read as.
#[derive(Debug, Clone, Copy, PartialEq, Eq, Structural)]
pub enum StreamKind {
    /// Fixed-size grayscale images.
    Images,
    /// One label byte for each image.
    Labels,
}

impl StreamKind {
    /// The magic number that opens a stream of this kind.
    pub open spec fn spec_magic(self) -> u32 {
        match self {
            StreamKind::Images => IMAGE_FILE,
            StreamKind::Labels => LABEL_FILE,
        }
    }

    /// Bytes before the first record: magic number and record count, and for
    /// images the numbers of rows and of columns as well.
    pub open spec fn spec_header_width(self) -> u32 {
        match self {
            StreamKind::Images => 16,
            StreamKind::Labels => 8,
        }
    }

    /// Bytes of one record.
    pub open spec fn spec_record_width(self) -> u32 {
        match self {
            StreamKind::Images => BYTES_PER_IMAGE,
            StreamKind::Labels => 1,
        }
    }

    #[verifier::when_used_as_spec(spec_magic)]
    pub fn magic(self) -> (m: u32)
        ensures
            m == self.spec_magic(),
    {
        match self {
            StreamKind::Images => IMAGE_FILE,
            StreamKind::Labels => LABEL_FILE,
        }
    }

    #[verifier::when_used_as_spec(spec_header_width)]
    pub fn header_width(self) -> (w: u32)
        ensures
            w == self.spec_header_width(),
    {
        match self {
            StreamKind::Images => 16,
            StreamKind::Labels => 8,
        }
    }

    #[verifier::when_used_as_spec(spec_record_width)]
    pub fn record_width(self) -> (w: u32)
        ensures
            w == self.spec_record_width(),
    {
        match self {
            StreamKind::Images => BYTES_PER_IMAGE,
            StreamKind::Labels => 1,
        }
    }
}

/// The two fields that open every stream.
#[derive(Debug, Clone, Copy, PartialEq, Eq, Structural)]
pub struct StreamHeader {
    pub magic: u32,
    pub record_count: u32,
}

/// The number that four bytes spell, most significant byte first.
pub open spec fn be_u32(b: Seq<u8>) -> int
    recommends
        b.len() == 4,
{
    b[0] * 0x100_0000 + b[1] * 0x1_0000 + b[2] * 0x100 + b[3]
}

/// The header that the first eight bytes of `bytes` spell.
pub open spec fn header_at(bytes: Seq<u8>) -> StreamHeader
    recommends
        bytes.len() >= 8,
{
    StreamHeader {
        magic: be_u32(bytes.subrange(0, 4)) as u32,
        record_count: be_u32(bytes.subrange(4, 8)) as u32,
    }
}

/// Offset, from the start of a stream of the given kind, of the record that
/// is counted `number` when the first record is counted 1.
pub open spec fn record_offset(kind: StreamKind, number: int) -> int {
    kind.spec_header_width() + (number - 1) * kind.spec_record_width()
}

/// Four bytes are read as a number below 2^32.
pub proof fn lemma_be_u32_range(b: Seq<u8>)
    ensures
        0 <= be_u32(b) <= u32::MAX,
{
}

/// Assembles four bytes, most significant first, into the number they spell.
pub fn u32_from_be(b0: u8, b1: u8, b2: u8, b3: u8) -> (n: u32)
    ensures
        n == be_u32(seq![b0, b1, b2, b3]),
{
    let high: u32 = (b0 as u32) * 0x100_0000 + (b1 as u32) * 0x1_0000;
    let low: u32 = (b2 as u32) * 0x100 + (b3 as u32);
    high + low
}

/// Offset of the first record of a window that starts at record
/// `start_from`, counted from 1.
pub fn first_record_offset(kind: StreamKind, start_from: u32) -> (offset: u64)
    requires
        start_from >= 1,
    ensures
        offset == record_offset(kind, start_from as int),
{
    let skipped: u64 = (start_from - 1) as u64;
    let width: u64 = kind.record_width() as u64;
    assert(skipped * width <= 0xFFFF_FFFF * 784) by (nonlinear_arith)
        requires
            0 <= skipped <= 0xFFFF_FFFF,
            0 <= width <= 784,
    ;
    kind.header_width() as u64 + skipped * width
}

/// A window that starts at the first record starts right behind the header.
pub proof fn lemma_first_record_follows_header(kind: StreamKind)
    ensures
        record_offset(kind, 1) == kind.spec_header_width(),
{
}

/// Each record lies one record width behind the one before it, whichever
/// the kind of stream.
pub proof fn lemma_record_offset_step(kind: StreamKind, number: int)
    ensures
        record_offset(kind, number + 1) == record_offset(kind, number) + kind.spec_record_width(),
        record_offset(StreamKind::Images, number) == 16 + (number - 1) * 784,
        record_offset(StreamKind::Labels, number) == 8 + (number - 1),
{
    assert((number + 1 - 1) * kind.spec_record_width() == (number - 1) * kind.spec_record_width()
        + kind.spec_record_width()) by (nonlinear_arith);
}

} // verus!
