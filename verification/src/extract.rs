//! The reader of a window: both streams are checked and positioned once,
//! then one label and one image are read for each record of the window.

use crate::failure::FailureReason;
use crate::format::{first_record_offset, record_offset, StreamKind, BYTES_PER_IMAGE, IMAGE_FILE, LABEL_FILE};
use crate::header::{operation_is_valid, verdict};
use crate::pixels::normalized;
use crate::stream::{ByteStream, StreamState};
use crate::window::Window;
use vstd::prelude::*;

verus! {

/// One record of the window: its place in the window, counted from 0, its
/// label, and its pixels, 0 for black and 255 for white.
#[derive(Debug)]
pub struct DecodedPair {
    pub index: u32,
    pub label: u8,
    pub pixels: Vec<u8>,
}

impl DecodedPair {
    /// The pixels are those of one whole image.
    pub open spec fn well_formed(&self) -> bool {
        self.pixels@.len() == BYTES_PER_IMAGE
    }
}

/// The stream that was refused, and why.
#[derive(Debug, Clone, Copy, PartialEq, Eq, Structural)]
pub struct Rejection {
    pub stream: StreamKind,
    pub reason: FailureReason,
}

/// Both streams as they stand once their headers are accepted and their
/// cursors lie at the first record of the window, or the first reason
/// against it: the images are looked at before the labels.
pub open spec fn prepared(source: StreamState, labels: StreamState, window: Window) -> Result<
    (StreamState, StreamState),
    Rejection,
> {
    match verdict(source, IMAGE_FILE, window) {
        Err(reason) => Err(Rejection { stream: StreamKind::Images, reason }),
        Ok(_) => match verdict(labels, LABEL_FILE, window) {
            Err(reason) => Err(Rejection { stream: StreamKind::Labels, reason }),
            Ok(_) => Ok(
                (
                    source.at(record_offset(StreamKind::Images, window.start_from as int) as nat),
                    labels.at(record_offset(StreamKind::Labels, window.start_from as int) as nat),
                ),
            ),
        },
    }
}

/// Checks the header of the images, then that of the labels, each against
/// the window, and moves both cursors to the first record of the window.
///
/// The first stream that is refused is named with the reason, and the
/// labels are not looked at once the images are refused.
pub fn prepare_read_handles(source: ByteStream, labels: ByteStream, window: &Window) -> (r: Result<
    (ByteStream, ByteStream),
    Rejection,
>)
    ensures
        r matches Ok(handles) ==> prepared(source@, labels@, *window) == Ok::<
            (StreamState, StreamState),
            Rejection,
        >((handles.0@, handles.1@)),
        r matches Err(rejection) ==> prepared(source@, labels@, *window) == Err::<
            (StreamState, StreamState),
            Rejection,
        >(rejection),
{
    let mut source = source;
    let mut labels = labels;
    match operation_is_valid(&mut source, IMAGE_FILE, window) {
        Err(reason) => Err(Rejection { stream: StreamKind::Images, reason }),
        Ok(_) => match operation_is_valid(&mut labels, LABEL_FILE, window) {
            Err(reason) => Err(Rejection { stream: StreamKind::Labels, reason }),
            Ok(_) => {
                source.seek(first_record_offset(StreamKind::Images, window.start_from));
                labels.seek(first_record_offset(StreamKind::Labels, window.start_from));
                Ok((source, labels))
            },
        },
    }
}

/// What a reader of a window is at one moment: the two streams, the records
/// asked for, the records read so far, and whether a read has failed.
pub struct ExtractorState {
    pub source: StreamState,
    pub labels: StreamState,
    pub quantity: nat,
    pub produced: nat,
    pub aborted: bool,
}

impl ExtractorState {
    /// Nothing more will be read: all records are read, or a read failed.
    pub open spec fn finished(self) -> bool {
        self.aborted || self.produced >= self.quantity
    }

    /// Both streams hold one more record.
    pub open spec fn readable(self) -> bool {
        self.labels.holds(1) && self.source.holds(BYTES_PER_IMAGE as nat)
    }

    /// The label at the cursor of the labels.
    pub open spec fn next_label(self) -> u8
        recommends
            self.labels.holds(1),
    {
        self.labels.bytes[self.labels.position as int]
    }

    /// The image at the cursor of the images, its polarity turned round.
    pub open spec fn next_pixels(self) -> Seq<u8>
        recommends
            self.source.holds(BYTES_PER_IMAGE as nat),
    {
        normalized(self.source.next(BYTES_PER_IMAGE as nat))
    }

    /// The reader after `n` more records: each cursor lies `n` records
    /// further on.
    pub open spec fn after_pairs(self, n: nat) -> ExtractorState {
        ExtractorState {
            source: self.source.advanced(n * BYTES_PER_IMAGE as nat),
            labels: self.labels.advanced(n),
            quantity: self.quantity,
            produced: self.produced + n,
            aborted: self.aborted,
        }
    }

    /// The reader after a read that failed. The label is read before the
    /// image, so a label whose image is cut short has been passed.
    pub open spec fn after_failure(self) -> ExtractorState {
        ExtractorState {
            source: self.source,
            labels: if self.labels.holds(1) {
                self.labels.advanced(1)
            } else {
                self.labels
            },
            quantity: self.quantity,
            produced: self.produced,
            aborted: true,
        }
    }
}

/// The label that lies `k` records behind the cursor of the labels.
pub open spec fn label_ahead(labels: StreamState, k: nat) -> u8 {
    labels.bytes[(labels.position + k) as int]
}

/// The image that lies `k` records behind the cursor of the images, its
/// polarity turned round.
pub open spec fn pixels_ahead(source: StreamState, k: nat) -> Seq<u8> {
    normalized(
        source.bytes.subrange(
            (source.position + k * BYTES_PER_IMAGE) as int,
            (source.position + k * BYTES_PER_IMAGE + BYTES_PER_IMAGE) as int,
        ),
    )
}

/// How many whole records both streams hold at their cursors, up to
/// `quantity`.
pub open spec fn readable_records(source: StreamState, labels: StreamState, quantity: nat) -> nat {
    let images = source.available() / (BYTES_PER_IMAGE as nat);
    let pairs = if images <= labels.available() {
        images
    } else {
        labels.available()
    };
    if quantity <= pairs {
        quantity
    } else {
        pairs
    }
}

/// The reader of a window: it yields the records one by one, each once, and
/// stops for good at the end of the window or at the first read that fails.
pub struct Extractor {
    source: ByteStream,
    labels: ByteStream,
    quantity: u32,
    produced: u32,
    aborted: bool,
}

impl View for Extractor {
    type V = ExtractorState;

    closed spec fn view(&self) -> ExtractorState {
        ExtractorState {
            source: self.source@,
            labels: self.labels@,
            quantity: self.quantity as nat,
            produced: self.produced as nat,
            aborted: self.aborted,
        }
    }
}

impl Extractor {
    /// A reader of `quantity` records, from where the two cursors lie.
    pub fn new(handles: (ByteStream, ByteStream), quantity: u32) -> (extractor: Extractor)
        ensures
            extractor@ == (ExtractorState {
                source: handles.0@,
                labels: handles.1@,
                quantity: quantity as nat,
                produced: 0,
                aborted: false,
            }),
    {
        Extractor { source: handles.0, labels: handles.1, quantity, produced: 0, aborted: false }
    }

    /// How many records have been read.
    pub fn produced(&self) -> (n: u32)
        ensures
            n == self@.produced,
    {
        self.produced
    }

    /// Whether nothing more will be read.
    pub fn is_finished(&self) -> (done: bool)
        ensures
            done == self@.finished(),
    {
        self.aborted || self.produced >= self.quantity
    }

    /// Reads the next record of the window: its label first, then its
    /// image.
    ///
    /// At the end of the window, and after a failure, nothing is read and
    /// nothing is yielded. A stream that is cut short yields the failure
    /// once.
    pub fn next_pair(&mut self) -> (r: Option<Result<DecodedPair, FailureReason>>)
        ensures
            old(self)@.finished() ==> r.is_none() && final(self)@ == old(self)@,
            !old(self)@.finished() && old(self)@.readable() ==> final(self)@ == old(self)@.after_pairs(
                1,
            ),
            !old(self)@.finished() && old(self)@.readable() ==> (r matches Some(Ok(pair))
                && pair.index == old(self)@.produced && pair.label == old(self)@.next_label()
                && pair.pixels@ == old(self)@.next_pixels() && pair.well_formed()),
            !old(self)@.finished() && !old(self)@.readable() ==> final(self)@
                == old(self)@.after_failure(),
            !old(self)@.finished() && !old(self)@.readable() ==> (r matches Some(Err(reason))
                && reason == FailureReason::FileIoFailure),
    {
        if self.aborted || self.produced >= self.quantity {
            return None;
        }
        let label = match self.labels.read_u8() {
            Ok(label) => label,
            Err(reason) => {
                self.aborted = true;
                return Some(Err(reason));
            },
        };
        let pixels = match self.source.read_image_data() {
            Ok(pixels) => pixels,
            Err(reason) => {
                self.aborted = true;
                return Some(Err(reason));
            },
        };
        let index: u32 = self.produced;
        self.produced = self.produced + 1;
        assert(final(self)@ =~= old(self)@.after_pairs(1)) by {
            assert(1 * BYTES_PER_IMAGE as nat == BYTES_PER_IMAGE as nat);
        }
        Some(Ok(DecodedPair { index, label, pixels }))
    }
}

/// A reader that stands `n` records into its streams can read one more
/// exactly when `n` is less than the whole records that the streams hold.
pub proof fn lemma_readable_iff_below_count(state: ExtractorState, n: nat)
    requires
        n < state.quantity,
    ensures
        state.after_pairs(n).readable() <==> n < readable_records(
            state.source,
            state.labels,
            state.quantity,
        ),
{
    let width = BYTES_PER_IMAGE as nat;
    let images = state.source.available() / width;
    assert(n * width + width == (n + 1) * width) by (nonlinear_arith);
    if state.source.position <= state.source.bytes.len() {
        let avail = state.source.available();
        assert(((n + 1) * width <= avail) <==> (n + 1 <= avail / width)) by (nonlinear_arith)
            requires
                width == 784,
        ;
    }
}

/// The record that a reader yields after `k` others is the one that lay `k`
/// records behind the cursors when it began.
pub proof fn lemma_next_is_ahead(state: ExtractorState, k: nat)
    ensures
        state.after_pairs(k).next_label() == label_ahead(state.labels, k),
        state.after_pairs(k).next_pixels() == pixels_ahead(state.source, k),
        state.after_pairs(k).after_pairs(1) == state.after_pairs(k + 1),
{
    let width = BYTES_PER_IMAGE as nat;
    assert(k * width + 1 * width == (k + 1) * width) by (nonlinear_arith);
}

/// Record `k` of an accepted window, counted from 0, is record
/// `start_from + k` of both files: its label lies `8 + (start_from - 1) + k`
/// bytes into the labels, its image `16 + (start_from - 1 + k) * 784` bytes
/// into the images.
pub proof fn lemma_window_record_places(
    source: StreamState,
    labels: StreamState,
    window: Window,
    k: nat,
)
    requires
        prepared(source, labels, window) is Ok,
    ensures
        ({
            let handles = prepared(source, labels, window)->Ok_0;
            let first = window.start_from - 1;
            &&& window.start_from >= 1
            &&& label_ahead(handles.1, k) == labels.bytes[8 + first + k]
            &&& pixels_ahead(handles.0, k) == normalized(
                source.bytes.subrange(16 + (first + k) * 784, 16 + (first + k) * 784 + 784),
            )
        }),
{
    let width = BYTES_PER_IMAGE as int;
    let first = window.start_from - 1;
    assert(window.fits(verdict(source, IMAGE_FILE, window)->Ok_0.record_count));
    assert(first * 784 + k * width == (first + k) * 784) by (nonlinear_arith)
        requires
            width == 784,
    ;
}

/// A window that is accepted lies within the records that the headers
/// announce; where both files are as long as their headers say, every
/// record of the window can be read.
pub proof fn lemma_accepted_window_is_readable(
    source: StreamState,
    labels: StreamState,
    window: Window,
)
    requires
        prepared(source, labels, window) is Ok,
        source.bytes.len() >= 16 + verdict(source, IMAGE_FILE, window)->Ok_0.record_count * 784,
        labels.bytes.len() >= 8 + verdict(labels, LABEL_FILE, window)->Ok_0.record_count,
    ensures
        ({
            let handles = prepared(source, labels, window)->Ok_0;
            readable_records(handles.0, handles.1, window.quantity as nat) == window.quantity
        }),
{
    let handles = prepared(source, labels, window)->Ok_0;
    let count = verdict(source, IMAGE_FILE, window)->Ok_0.record_count as int;
    let first = window.start_from - 1;
    let quantity = window.quantity as int;
    assert(first + quantity <= count);
    assert(handles.0.position == 16 + first * 784);
    assert(handles.0.available() >= quantity * 784) by {
        assert(count * 784 - first * 784 >= quantity * 784) by (nonlinear_arith)
            requires
                first + quantity <= count,
        ;
    }
    assert(handles.0.available() / 784 >= quantity) by (nonlinear_arith)
        requires
            handles.0.available() >= quantity * 784,
    ;
}

} // verus!
