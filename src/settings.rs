//! The vocoder's configuration, fixed for the lifetime of an orchestrator.
//!
//! Every value is held as the IEEE-754 bit pattern of a single-precision
//! float: the stage parameter buffers are uploaded from these words as they
//! stand, so the device sees exactly the configured values.

use vstd::prelude::*;

verus! {

/// Bit pattern of `1.0`.
pub const UNIT_RATIO_BITS: u32 = 0x3f80_0000;

/// Bit pattern of `341.0`, the default reconstruction delay in samples.
pub const DEFAULT_DELAY_BITS: u32 = 0x43aa_8000;

/// Bit pattern of `0.9`, the default mix span.
pub const DEFAULT_MIX_SPAN_BITS: u32 = 0x3f66_6666;

/// Bit pattern of `0.0`.
pub const ZERO_BITS: u32 = 0;

/// Configuration of a vocoder; each field is the bit pattern of an `f32`.
#[derive(Clone, Copy, Debug)]
pub struct VocoderSettings {
    /// Pitch ratio: `1.0` leaves the pitch unchanged, above it raises it.
    pub pitch_shift_ratio: u32,
    /// Reconstruction offset, in samples.
    pub delay: u32,
    /// Width of the crossfade between reconstructions.
    pub mix_span: u32,
    /// Gain of each frequency band.
    pub equalizer: [u32; 8],
    /// Polynomial coefficients applied to the signal envelope, constant term first.
    pub envelope_warp: [u32; 8],
}

/// A flat equalizer: unit gain on the first band, nothing on the others.
pub open spec fn flat_equalizer() -> Seq<u32> {
    seq![UNIT_RATIO_BITS, 0u32, 0u32, 0u32, 0u32, 0u32, 0u32, 0u32]
}

/// The identity envelope warp: the polynomial `x`.
pub open spec fn identity_envelope_warp() -> Seq<u32> {
    seq![0u32, UNIT_RATIO_BITS, 0u32, 0u32, 0u32, 0u32, 0u32, 0u32]
}

/// The parameter triple of the pitch-shift stage, in buffer order.
pub open spec fn pitch_shift_words(s: VocoderSettings) -> Seq<u32> {
    seq![s.pitch_shift_ratio, s.delay, s.mix_span]
}

impl Default for VocoderSettings {
    /// Unchanged pitch, a delay of 341 samples, a mix span of 0.9, a flat
    /// equalizer and the identity envelope warp.
    fn default() -> (r: VocoderSettings)
        ensures
            r.pitch_shift_ratio == UNIT_RATIO_BITS,
            r.delay == DEFAULT_DELAY_BITS,
            r.mix_span == DEFAULT_MIX_SPAN_BITS,
            r.equalizer@ == flat_equalizer(),
            r.envelope_warp@ == identity_envelope_warp(),
    {
        let r = VocoderSettings {
            pitch_shift_ratio: UNIT_RATIO_BITS,
            delay: DEFAULT_DELAY_BITS,
            mix_span: DEFAULT_MIX_SPAN_BITS,
            equalizer: [UNIT_RATIO_BITS, 0, 0, 0, 0, 0, 0, 0],
            envelope_warp: [0, UNIT_RATIO_BITS, 0, 0, 0, 0, 0, 0],
        };
        assert(r.equalizer@ =~= flat_equalizer());
        assert(r.envelope_warp@ =~= identity_envelope_warp());
        r
    }
}

impl VocoderSettings {
    /// The words of the pitch-shift stage's parameter buffer: ratio, delay, mix span.
    pub fn pitch_shift_params(&self) -> (r: [u32; 3])
        ensures
            r@ == pitch_shift_words(*self),
    {
        let r = [self.pitch_shift_ratio, self.delay, self.mix_span];
        assert(r@ =~= pitch_shift_words(*self));
        r
    }
}

} // verus!
