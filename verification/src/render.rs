//! The driver: each record of the window is read, made into an image, and
//! encoded as a bitmap file for the caller to store.

use crate::extract::{
    label_ahead, lemma_next_is_ahead, lemma_readable_iff_below_count, pixels_ahead,
    readable_records, DecodedPair, Extractor, ExtractorState,
};
use crate::failure::FailureReason;
use crate::format::IMAGE_SIDE;
use crate::naming::{artifact_name, file_name};
use crate::raster::{bmp_encoding, gray_from_raw, write_bmp};
use crate::stream::ByteStream;
use vstd::prelude::*;

verus! {

/// The bitmap file of one record, with the record's place in the window and
/// its label, by which the file is named.
#[derive(Debug)]
pub struct Artifact {
    pub index: u32,
    pub label: u8,
    pub bytes: Vec<u8>,
}

/// The pixels are enough for an image of the shape of a record.
pub open spec fn accepted(pixels: Seq<u8>) -> bool {
    IMAGE_SIDE * IMAGE_SIDE <= pixels.len()
}

/// The bitmap file for the pixels of one record, or `None` where the
/// encoder refuses them.
pub open spec fn encoded(pixels: Seq<u8>) -> Option<Seq<u8>> {
    bmp_encoding(IMAGE_SIDE, IMAGE_SIDE, pixels.take(IMAGE_SIDE * IMAGE_SIDE))
}

impl Artifact {
    /// The name under which the file is stored.
    pub fn file_name(&self) -> (name: String)
        ensures
            name@ == artifact_name(self.index, self.label),
    {
        file_name(self.index, self.label)
    }
}

/// Makes the image of one record and encodes it.
///
/// Pixels that do not make an image of the shape of a record are an
/// `ImageConstructionFailure`; an image that the encoder refuses is a
/// `FileIoFailure`, as a file that cannot be written.
pub fn render(pair: DecodedPair) -> (r: Result<Artifact, FailureReason>)
    ensures
        !accepted(pair.pixels@) ==> (r matches Err(reason) && reason
            == FailureReason::ImageConstructionFailure),
        accepted(pair.pixels@) && encoded(pair.pixels@).is_none() ==> (r matches Err(reason)
            && reason == FailureReason::FileIoFailure),
        accepted(pair.pixels@) && encoded(pair.pixels@).is_some() ==> (r matches Ok(artifact)
            && artifact.index == pair.index && artifact.label == pair.label && encoded(
            pair.pixels@,
        ) == Some(artifact.bytes@)),
{
    let index: u32 = pair.index;
    let label: u8 = pair.label;
    match gray_from_raw(IMAGE_SIDE, IMAGE_SIDE, pair.pixels) {
        None => Err(FailureReason::ImageConstructionFailure),
        Some(bitmap) => match write_bmp(&bitmap) {
            Ok(bytes) => Ok(Artifact { index, label, bytes }),
            Err(_) => Err(FailureReason::FileIoFailure),
        },
    }
}

/// What a run has come to: the files written so far, the records left out,
/// and whether it can go on.
#[derive(Debug)]
pub struct Dump {
    /// The files, in the order of the records.
    pub artifacts: Vec<Artifact>,
    /// The places in the window of the records that were left out.
    pub skipped: Vec<u32>,
    /// `Ok` until a read or the encoder fails.
    pub outcome: Result<(), FailureReason>,
}

impl Dump {
    /// A run that has not begun.
    pub fn new() -> (dump: Dump)
        ensures
            dump.artifacts@.len() == 0,
            dump.skipped@.len() == 0,
            dump.outcome == Ok::<(), FailureReason>(()),
    {
        Dump { artifacts: Vec::new(), skipped: Vec::new(), outcome: Ok(()) }
    }

    /// Takes in what came of the record at place `index`, and says whether
    /// the run goes on: a file is kept; a record whose image could not be
    /// made is left out and noted; any other failure ends the run.
    pub fn record(&mut self, index: u32, rendering: Result<Artifact, FailureReason>) -> (go_on:
        bool)
        ensures
            go_on == !(rendering matches Err(reason) && reason.is_fatal()),
            final(self).artifacts@ == (match rendering {
                Ok(artifact) => old(self).artifacts@.push(artifact),
                Err(_) => old(self).artifacts@,
            }),
            final(self).skipped@ == (match rendering {
                Err(FailureReason::ImageConstructionFailure) => old(self).skipped@.push(index),
                _ => old(self).skipped@,
            }),
            final(self).outcome == (match rendering {
                Err(reason) if reason.is_fatal() => Err::<(), FailureReason>(reason),
                _ => old(self).outcome,
            }),
    {
        match rendering {
            Ok(artifact) => {
                self.artifacts.push(artifact);
                true
            },
            Err(reason) => {
                if reason.fatal() {
                    self.outcome = Err(reason);
                    false
                } else {
                    self.skipped.push(index);
                    true
                }
            },
        }
    }
}

/// Reads `quantity` records from where the two cursors lie, and encodes
/// each as a bitmap file.
///
/// The run ends at the first record that one of the streams does not hold
/// whole, and at the first image that the encoder refuses; the files
/// written before that are kept. No record that was read is left out.
pub fn dump_images(handles: (ByteStream, ByteStream), quantity: u32) -> (dump: Dump)
    ensures
        dump.skipped@.len() == 0,
        dump.artifacts@.len() <= readable_records(handles.0@, handles.1@, quantity as nat),
        forall|i: int|
            0 <= i < dump.artifacts@.len() ==> {
                &&& (#[trigger] dump.artifacts@[i]).index == i
                &&& dump.artifacts@[i].label == label_ahead(handles.1@, i as nat)
                &&& encoded(pixels_ahead(handles.0@, i as nat)) == Some(dump.artifacts@[i].bytes@)
            },
        dump.artifacts@.len() < readable_records(handles.0@, handles.1@, quantity as nat) ==> {
            &&& encoded(pixels_ahead(handles.0@, dump.artifacts@.len())).is_none()
            &&& dump.outcome == Err::<(), FailureReason>(FailureReason::FileIoFailure)
        },
        dump.artifacts@.len() == readable_records(handles.0@, handles.1@, quantity as nat)
            ==> dump.outcome == (if dump.artifacts@.len() == quantity {
            Ok::<(), FailureReason>(())
        } else {
            Err::<(), FailureReason>(FailureReason::FileIoFailure)
        }),
{
    let ghost source = handles.0@;
    let ghost labels = handles.1@;
    let ghost whole = readable_records(source, labels, quantity as nat);
    let mut extractor = Extractor::new(handles, quantity);
    let ghost start = extractor@;
    let mut dump = Dump::new();
    let mut running: bool = true;
    while running
        invariant
            whole == readable_records(source, labels, quantity as nat),
            start.source == source,
            start.labels == labels,
            start.quantity == quantity,
            start.produced == 0,
            !start.aborted,
            dump.skipped@.len() == 0,
            dump.artifacts@.len() <= whole <= quantity,
            forall|i: int|
                0 <= i < dump.artifacts@.len() ==> {
                    &&& (#[trigger] dump.artifacts@[i]).index == i
                    &&& dump.artifacts@[i].label == label_ahead(labels, i as nat)
                    &&& encoded(pixels_ahead(source, i as nat)) == Some(dump.artifacts@[i].bytes@)
                },
            running ==> dump.outcome == Ok::<(), FailureReason>(()) && extractor@
                == start.after_pairs(dump.artifacts@.len()),
            !running && dump.artifacts@.len() < whole ==> encoded(
                pixels_ahead(source, dump.artifacts@.len()),
            ).is_none() && dump.outcome == Err::<(), FailureReason>(FailureReason::FileIoFailure),
            !running && dump.artifacts@.len() == whole ==> dump.outcome == (if dump.artifacts@.len()
                == quantity {
                Ok::<(), FailureReason>(())
            } else {
                Err::<(), FailureReason>(FailureReason::FileIoFailure)
            }),
        decreases
                (if running {
                    1int
                } else {
                    0int
                }),
                quantity - dump.artifacts@.len(),
    {
        let ghost n = dump.artifacts@.len();
        proof {
            lemma_next_is_ahead(start, n);
            if n < quantity {
                lemma_readable_iff_below_count(start, n);
            }
        }
        match extractor.next_pair() {
            None => {
                running = false;
            },
            Some(Err(reason)) => {
                dump.outcome = Err(reason);
                running = false;
            },
            Some(Ok(pair)) => {
                let index: u32 = pair.index;
                let rendering = render(pair);
                running = dump.record(index, rendering);
            },
        }
    }
    dump
}

/// The pixels of every record that is read are enough for its image: the
/// encoder leaves none out.
pub proof fn lemma_read_records_are_accepted(state: ExtractorState)
    requires
        state.readable(),
    ensures
        accepted(state.next_pixels()),
{
}

} // verus!
