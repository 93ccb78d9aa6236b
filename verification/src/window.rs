//! The window of records that a caller asks for.

use vstd::prelude::*;

verus! {

/// A run of `quantity` records that starts at record `start_from`, the first
/// record of a stream being record 1.
#[derive(Debug, Clone, Copy, PartialEq, Eq, Structural)]
pub struct Window {
    pub start_from: u32,
    pub quantity: u32,
}

impl Window {
    /// The window is not empty, starts at or behind the first record, and
    /// ends at or before the last of `record_count` records.
    pub open spec fn fits(self, record_count: u32) -> bool {
        &&& self.quantity >= 1
        &&& self.start_from >= 1
        &&& self.start_from + self.quantity - 1 <= record_count
    }

    /// Decides `fits` without overflow, whatever the three numbers are.
    pub fn check(&self, record_count: u32) -> (ok: bool)
        ensures
            ok == self.fits(record_count),
    {
        self.quantity >= 1 && self.start_from >= 1 && self.start_from as u64 + self.quantity as u64
            - 1 <= record_count as u64
    }
}

/// An empty window fits no stream.
pub proof fn lemma_empty_window_never_fits(start_from: u32, record_count: u32)
    ensures
        !(Window { start_from, quantity: 0 }).fits(record_count),
{
}

/// A window that fits a stream fits every longer one, and its last record is
/// a record of the stream.
pub proof fn lemma_fits_monotone(window: Window, shorter: u32, longer: u32)
    requires
        window.fits(shorter),
        shorter <= longer,
    ensures
        window.fits(longer),
        window.start_from <= shorter,
        window.quantity <= shorter,
{
}

} // verus!
