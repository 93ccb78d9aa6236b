//! A stream of bytes with a read cursor, as a file read from front to back.

use crate::failure::FailureReason;
use crate::format::{be_u32, u32_from_be, BYTES_PER_IMAGE};
use crate::pixels::{normalize, normalized};
use vstd::prelude::*;
use vstd::slice::slice_subrange;

verus! {

/// What a stream is to its reader: all of its bytes, and how many of them
/// lie before the cursor.
pub struct StreamState {
    pub bytes: Seq<u8>,
    pub position: nat,
}

impl StreamState {
    /// At least `n` bytes lie at and behind the cursor.
    pub open spec fn holds(self, n: nat) -> bool {
        self.position + n <= self.bytes.len()
    }

    /// The bytes at and behind the cursor; none where the cursor lies behind
    /// the last byte.
    pub open spec fn available(self) -> nat {
        if self.position <= self.bytes.len() {
            (self.bytes.len() - self.position) as nat
        } else {
            0
        }
    }

    /// The `n` bytes at the cursor.
    pub open spec fn next(self, n: nat) -> Seq<u8>
        recommends
            self.holds(n),
    {
        self.bytes.subrange(self.position as int, (self.position + n) as int)
    }

    /// The same stream with the cursor `n` bytes further on.
    pub open spec fn advanced(self, n: nat) -> StreamState {
        StreamState { bytes: self.bytes, position: self.position + n }
    }

    /// The same stream with the cursor at `position`.
    pub open spec fn at(self, position: nat) -> StreamState {
        StreamState { bytes: self.bytes, position }
    }
}

/// The bytes of one file and the cursor of its one reader.
///
/// The cursor may lie behind the last byte, as that of a file may: nothing
/// can then be read.
pub struct ByteStream {
    data: Vec<u8>,
    position: u64,
}

impl View for ByteStream {
    type V = StreamState;

    closed spec fn view(&self) -> StreamState {
        StreamState { bytes: self.data@, position: self.position as nat }
    }
}

impl ByteStream {
    /// A stream over `data`, with the cursor at its first byte.
    pub fn new(data: Vec<u8>) -> (stream: ByteStream)
        ensures
            stream@.bytes == data@,
            stream@.position == 0,
    {
        ByteStream { data, position: 0 }
    }

    /// Where the cursor lies.
    pub fn position(&self) -> (p: u64)
        ensures
            p == self@.position,
    {
        self.position
    }

    /// Moves the cursor to `offset` bytes behind the start of the stream.
    pub fn seek(&mut self, offset: u64)
        ensures
            final(self)@ == old(self)@.at(offset as nat),
    {
        self.position = offset;
    }

    /// Moves the cursor over `n` bytes if the stream holds them, and says
    /// where they start.
    fn claim(&mut self, n: u64) -> (start: Option<usize>)
        ensures
            old(self)@.holds(n as nat) ==> start == Some(old(self)@.position as usize)
                && final(self)@ == old(self)@.advanced(n as nat),
            !old(self)@.holds(n as nat) ==> start.is_none() && final(self)@ == old(self)@,
            final(self).data == old(self).data,
            start matches Some(i) ==> i == old(self).position && final(self).position == i + n
                && i + n <= old(self).data@.len() <= usize::MAX,
    {
        let len: u64 = self.data.len() as u64;
        if self.position <= len && n <= len - self.position {
            let start: usize = self.position as usize;
            self.position = self.position + n;
            Some(start)
        } else {
            None
        }
    }

    /// Reads the byte at the cursor.
    ///
    /// A stream that holds no further byte is left as it was.
    pub fn read_u8(&mut self) -> (r: Result<u8, FailureReason>)
        ensures
            old(self)@.holds(1) ==> r == Ok::<u8, FailureReason>(
                old(self)@.bytes[old(self)@.position as int],
            ) && final(self)@ == old(self)@.advanced(1),
            !old(self)@.holds(1) ==> r == Err::<u8, FailureReason>(FailureReason::FileIoFailure)
                && final(self)@ == old(self)@,
    {
        match self.claim(1) {
            Some(start) => Ok(self.data[start]),
            None => Err(FailureReason::FileIoFailure),
        }
    }

    /// Reads the four bytes at the cursor as one number, most significant
    /// byte first.
    ///
    /// A stream that holds fewer than four further bytes is left as it was.
    pub fn read_u32(&mut self) -> (r: Result<u32, FailureReason>)
        ensures
            old(self)@.holds(4) ==> r == Ok::<u32, FailureReason>(
                be_u32(old(self)@.next(4)) as u32,
            ) && final(self)@ == old(self)@.advanced(4),
            !old(self)@.holds(4) ==> r == Err::<u32, FailureReason>(FailureReason::FileIoFailure)
                && final(self)@ == old(self)@,
    {
        match self.claim(4) {
            Some(start) => {
                let n: u32 = u32_from_be(
                    self.data[start],
                    self.data[start + 1],
                    self.data[start + 2],
                    self.data[start + 3],
                );
                assert(old(self)@.next(4) =~= seq![
                    self.data@[start as int],
                    self.data@[start + 1],
                    self.data@[start + 2],
                    self.data@[start + 3],
                ]);
                Ok(n)
            },
            None => Err(FailureReason::FileIoFailure),
        }
    }

    /// Reads the image record at the cursor and turns the polarity of its
    /// pixels round.
    ///
    /// A stream that holds less than one further record is left as it was.
    pub fn read_image_data(&mut self) -> (r: Result<Vec<u8>, FailureReason>)
        ensures
            old(self)@.holds(BYTES_PER_IMAGE as nat) ==> final(self)@ == old(self)@.advanced(
                BYTES_PER_IMAGE as nat,
            ),
            old(self)@.holds(BYTES_PER_IMAGE as nat) ==> (r matches Ok(pixels) && pixels@
                == normalized(old(self)@.next(BYTES_PER_IMAGE as nat))),
            !old(self)@.holds(BYTES_PER_IMAGE as nat) ==> final(self)@ == old(self)@,
            !old(self)@.holds(BYTES_PER_IMAGE as nat) ==> (r matches Err(reason) && reason
                == FailureReason::FileIoFailure),
    {
        match self.claim(BYTES_PER_IMAGE as u64) {
            Some(start) => {
                let raw = slice_subrange(self.data.as_slice(), start, start + BYTES_PER_IMAGE as usize);
                Ok(normalize(raw))
            },
            None => Err(FailureReason::FileIoFailure),
        }
    }
}

} // verus!
