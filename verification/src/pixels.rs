//! Polarity of pixels. The streams store 0 for white and 255 for black; an
//! image for display has it the other way round.

use vstd::prelude::*;

verus! {

/// One sample with its polarity turned round.
pub open spec fn inverted(b: u8) -> u8 {
    (255 - b) as u8
}

/// A record with the polarity of every sample turned round.
pub open spec fn normalized(raw: Seq<u8>) -> Seq<u8> {
    Seq::new(raw.len(), |i: int| inverted(raw[i]))
}

/// Turns the polarity of one sample round.
pub fn normalize_pixel(b: u8) -> (r: u8)
    ensures
        r == inverted(b),
{
    255 - b
}

/// Turns the polarity of every sample of a record round.
pub fn normalize(raw: &[u8]) -> (pixels: Vec<u8>)
    ensures
        pixels@ == normalized(raw@),
{
    let mut pixels: Vec<u8> = Vec::with_capacity(raw.len());
    let mut i: usize = 0;
    while i < raw.len()
        invariant
            i <= raw.len(),
            pixels@ == normalized(raw@.take(i as int)),
        decreases raw.len() - i,
    {
        pixels.push(normalize_pixel(raw[i]));
        i += 1;
        assert(pixels@ =~= normalized(raw@.take(i as int)));
    }
    assert(raw@.take(i as int) =~= raw@);
    pixels
}

/// Turning a sample round twice gives the sample back.
pub proof fn lemma_inverted_is_involution(b: u8)
    ensures
        inverted(inverted(b)) == b,
{
}

/// Turning a record round twice gives the record back.
pub proof fn lemma_normalized_is_involution(raw: Seq<u8>)
    ensures
        normalized(normalized(raw)) == raw,
{
    assert(normalized(normalized(raw)) =~= raw);
}

/// Turning a record round keeps its length, and changes each sample by
/// itself.
pub proof fn lemma_normalized_pointwise(raw: Seq<u8>, i: int)
    requires
        0 <= i < raw.len(),
    ensures
        normalized(raw).len() == raw.len(),
        normalized(raw)[i] == 255 - raw[i],
{
}

} // verus!
