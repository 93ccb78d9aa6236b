use vstd::prelude::*;

verus! {

/// Why an extraction could not start, could not go on, or left a record out.
#[derive(Debug, Clone, Copy, PartialEq, Eq, Structural)]
pub enum FailureReason {
    /// A stream could not be opened or positioned, it ended before the
    /// bytes that were asked of it, or a file could not be written.
    FileIoFailure,
    /// The magic number of a stream is not the one of its kind.
    FileTypeMismatch,
    /// The window is empty, starts before the first record, or runs past the
    /// records that a stream holds.
    InvalidRange,
    /// The pixels of one record could not be assembled into an image of the
    /// declared shape.
    ImageConstructionFailure,
}

impl FailureReason {
    /// Whether a failure of this kind ends the run. Only an image that
    /// could not be made does not: its record is left out.
    pub open spec fn is_fatal(self) -> bool {
        self != FailureReason::ImageConstructionFailure
    }

    /// Whether a failure of this kind ends the run.
    #[verifier::when_used_as_spec(is_fatal)]
    pub fn fatal(self) -> (fatal: bool)
        ensures
            fatal == self.is_fatal(),
    {
        match self {
            FailureReason::ImageConstructionFailure => false,
            _ => true,
        }
    }
}

} // verus!
