//! Encoding of rendered page buffers for the device.

use vstd::prelude::*;

verus! {

/// Errors of the encoder.
#[derive(Debug, Clone, Copy, PartialEq, Eq, Structural)]
pub enum EncoderError {
    /// The encoder pipeline is not ready for this input.
    NotReady,
}

/// Encoder settings.
#[derive(Debug, Clone, Copy, PartialEq, Eq, Structural)]
pub struct EncoderConfig {
    /// Strength of dithering, in percent.
    pub dither_percent: u8,
}

impl EncoderConfig {
    /// Settings with the given dithering strength.
    pub fn new(dither_percent: u8) -> (r: Self)
        ensures
            r.dither_percent == dither_percent,
    {
        Self { dither_percent }
    }
}

/// Encodes a buffer. The pipeline passes content through unchanged; an empty input is
/// refused with `NotReady`.
pub fn encode_buffer(config: &EncoderConfig, input: &[u8]) -> (r: Result<Vec<u8>, EncoderError>)
    ensures
        input@.len() == 0 ==> r == Err::<Vec<u8>, EncoderError>(EncoderError::NotReady),
        input@.len() > 0 ==> (r matches Ok(out) && out@ == input@),
{
    if input.len() == 0 {
        Err(EncoderError::NotReady)
    } else {
        let mut out: Vec<u8> = Vec::with_capacity(input.len());
        let mut i: usize = 0;
        while i < input.len()
            invariant
                i <= input@.len(),
                out@ == input@.subrange(0, i as int),
            decreases input.len() - i,
        {
            out.push(input[i]);
            i = i + 1;
            assert(out@ =~= input@.subrange(0, i as int));
        }
        assert(out@ =~= input@);
        Ok(out)
    }
}

} // verus!
