//! Validation of a stream's header against the kind of stream that is
//! expected and the window that is asked for.

use crate::failure::FailureReason;
use crate::format::{header_at, StreamHeader};
use crate::stream::{ByteStream, StreamState};
use crate::window::Window;
use vstd::prelude::*;

verus! {

/// What becomes of a header that was read: a wrong magic number is told
/// before a window that does not fit.
pub open spec fn judged(header: StreamHeader, expected_magic: u32, window: Window) -> Result<
    StreamHeader,
    FailureReason,
> {
    if header.magic != expected_magic {
        Err(FailureReason::FileTypeMismatch)
    } else if !window.fits(header.record_count) {
        Err(FailureReason::InvalidRange)
    } else {
        Ok(header)
    }
}

/// What becomes of a stream whose header lies at the cursor: a header that
/// is cut short is told before anything else.
pub open spec fn verdict(stream: StreamState, expected_magic: u32, window: Window) -> Result<
    StreamHeader,
    FailureReason,
> {
    if !stream.holds(8) {
        Err(FailureReason::FileIoFailure)
    } else {
        judged(header_at(stream.next(8)), expected_magic, window)
    }
}

/// Where the cursor of a stream lies once its header was asked for: behind
/// the header, or where it was if the header is cut short.
pub open spec fn behind_header(stream: StreamState) -> StreamState {
    if stream.holds(8) {
        stream.advanced(8)
    } else {
        stream
    }
}

/// Reads the eight bytes at the cursor as a header.
///
/// A stream that holds fewer than eight further bytes is left as it was.
pub fn read_header(stream: &mut ByteStream) -> (r: Result<StreamHeader, FailureReason>)
    ensures
        old(stream)@.holds(8) ==> r == Ok::<StreamHeader, FailureReason>(
            header_at(old(stream)@.next(8)),
        ),
        !old(stream)@.holds(8) ==> r == Err::<StreamHeader, FailureReason>(
            FailureReason::FileIoFailure,
        ),
        final(stream)@ == behind_header(old(stream)@),
{
    let start: u64 = stream.position();
    let magic = stream.read_u32();
    let record_count = stream.read_u32();
    match (magic, record_count) {
        (Ok(magic), Ok(record_count)) => {
            assert(old(stream)@.next(8).subrange(0, 4) =~= old(stream)@.next(4));
            assert(old(stream)@.next(8).subrange(4, 8) =~= old(stream)@.advanced(4).next(4));
            Ok(StreamHeader { magic, record_count })
        },
        _ => {
            stream.seek(start);
            Err(FailureReason::FileIoFailure)
        },
    }
}

/// Holds a header against the magic number that is expected and the window
/// that is asked for.
pub fn validate_header(header: StreamHeader, expected_magic_number: u32, window: &Window) -> (r:
    Result<StreamHeader, FailureReason>)
    ensures
        r == judged(header, expected_magic_number, *window),
{
    if header.magic != expected_magic_number {
        Err(FailureReason::FileTypeMismatch)
    } else if !window.check(header.record_count) {
        Err(FailureReason::InvalidRange)
    } else {
        Ok(header)
    }
}

/// Reads the header at the cursor and holds it against the magic number
/// that is expected and the window that is asked for.
pub fn operation_is_valid(
    stream: &mut ByteStream,
    expected_magic_number: u32,
    window: &Window,
) -> (r: Result<StreamHeader, FailureReason>)
    ensures
        r == verdict(old(stream)@, expected_magic_number, *window),
        final(stream)@ == behind_header(old(stream)@),
{
    match read_header(stream) {
        Ok(header) => validate_header(header, expected_magic_number, window),
        Err(reason) => Err(reason),
    }
}

/// A header with the expected magic number, in a stream that holds it whole,
/// is accepted exactly when the window fits its record count.
pub proof fn lemma_expected_magic_accepted(stream: StreamState, window: Window)
    requires
        stream.holds(8),
    ensures
        ({
            let header = header_at(stream.next(8));
            &&& verdict(stream, header.magic, window) is Ok <==> window.fits(header.record_count)
            &&& window.fits(header.record_count) ==> verdict(stream, header.magic, window) == Ok::<
                StreamHeader,
                FailureReason,
            >(header)
            &&& !window.fits(header.record_count) ==> verdict(stream, header.magic, window) == Err::<
                StreamHeader,
                FailureReason,
            >(FailureReason::InvalidRange)
        }),
{
}

/// A header with another magic number than the expected one is a type
/// mismatch, whatever the window: it is never told as an invalid range.
pub proof fn lemma_mismatched_magic_rejected(
    stream: StreamState,
    expected_magic: u32,
    window: Window,
)
    requires
        stream.holds(8),
        header_at(stream.next(8)).magic != expected_magic,
    ensures
        verdict(stream, expected_magic, window) == Err::<StreamHeader, FailureReason>(
            FailureReason::FileTypeMismatch,
        ),
        forall|header: StreamHeader|
            header.magic != expected_magic ==> #[trigger] judged(header, expected_magic, window)
                == Err::<StreamHeader, FailureReason>(FailureReason::FileTypeMismatch),
{
}

/// With the magic number as expected, a window is accepted if and only if it
/// is not empty, starts at record 1 or later, and ends within the records.
pub proof fn lemma_window_accepted_iff_fits(
    magic: u32,
    start_from: u32,
    quantity: u32,
    record_count: u32,
)
    ensures
        judged(StreamHeader { magic, record_count }, magic, Window { start_from, quantity }) is Ok
            <==> quantity >= 1 && start_from >= 1 && start_from + quantity - 1 <= record_count,
{
}

} // verus!
