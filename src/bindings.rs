//! The fixed positions of the stages' descriptor sets in the two compute
//! pipelines.
//!
//! The forward-transform pipeline binds the Fourier stage's forward set and
//! the pitch-shift stage's forward set; the synthesis pipeline binds the
//! Fourier stage's inverse set, the pitch-shift stage's inverse set, the
//! equalizer and the envelope warp, in that order.

use vstd::prelude::*;

verus! {

/// One of the two compute pipelines of a frame.
#[derive(Clone, Copy, Debug, PartialEq, Eq, Structural)]
pub enum PipelineKind {
    /// Advances the running transform from the new input.
    Forward,
    /// Reconstructs the output frame from the running transform.
    Synthesis,
}

/// A descriptor set that a stage contributes to a pipeline.
#[derive(Clone, Copy, Debug, PartialEq, Eq, Structural)]
pub enum StageBinding {
    /// Time counter, running transform, input and history, for the forward pass.
    FourierForward,
    /// Pitch-shift parameters, for the forward pass.
    PitchShiftForward,
    /// Time counter, running transform and output, for synthesis.
    FourierInverse,
    /// Pitch-shift parameters, for synthesis.
    PitchShiftInverse,
    /// Equalizer gains.
    Equalizer,
    /// Envelope-warp coefficients.
    EnvelopeWarp,
}

/// The sets bound into pipeline `p`, by set index.
pub open spec fn bound_sets(p: PipelineKind) -> Seq<StageBinding> {
    match p {
        PipelineKind::Forward => seq![StageBinding::FourierForward, StageBinding::PitchShiftForward],
        PipelineKind::Synthesis => seq![
            StageBinding::FourierInverse,
            StageBinding::PitchShiftInverse,
            StageBinding::Equalizer,
            StageBinding::EnvelopeWarp,
        ],
    }
}

/// The pipeline that `b` is bound into, and its set index there.
pub open spec fn slot_of(b: StageBinding) -> (PipelineKind, int) {
    match b {
        StageBinding::FourierForward => (PipelineKind::Forward, 0),
        StageBinding::PitchShiftForward => (PipelineKind::Forward, 1),
        StageBinding::FourierInverse => (PipelineKind::Synthesis, 0),
        StageBinding::PitchShiftInverse => (PipelineKind::Synthesis, 1),
        StageBinding::Equalizer => (PipelineKind::Synthesis, 2),
        StageBinding::EnvelopeWarp => (PipelineKind::Synthesis, 3),
    }
}

/// The sets to bind into pipeline `p`, in set-index order.
pub fn pipeline_sets(p: PipelineKind) -> (r: Vec<StageBinding>)
    ensures
        r@ == bound_sets(p),
{
    let r = match p {
        PipelineKind::Forward => vec![StageBinding::FourierForward, StageBinding::PitchShiftForward],
        PipelineKind::Synthesis => vec![
            StageBinding::FourierInverse,
            StageBinding::PitchShiftInverse,
            StageBinding::Equalizer,
            StageBinding::EnvelopeWarp,
        ],
    };
    assert(r@ =~= bound_sets(p));
    r
}

/// The pipeline that `b` is bound into, and the index of the set layout it
/// is built against.
pub fn slot(b: StageBinding) -> (r: (PipelineKind, usize))
    ensures
        r.0 == slot_of(b).0,
        r.1 == slot_of(b).1,
{
    match b {
        StageBinding::FourierForward => (PipelineKind::Forward, 0),
        StageBinding::PitchShiftForward => (PipelineKind::Forward, 1),
        StageBinding::FourierInverse => (PipelineKind::Synthesis, 0),
        StageBinding::PitchShiftInverse => (PipelineKind::Synthesis, 1),
        StageBinding::Equalizer => (PipelineKind::Synthesis, 2),
        StageBinding::EnvelopeWarp => (PipelineKind::Synthesis, 3),
    }
}

/// Each set is bound exactly once, at the index its layout was taken from:
/// the order of a pipeline's sets and the slot of each set agree.
pub proof fn lemma_slots_agree(b: StageBinding, p: PipelineKind, i: int)
    ensures
        0 <= slot_of(b).1 < bound_sets(slot_of(b).0).len(),
        bound_sets(slot_of(b).0)[slot_of(b).1] == b,
        0 <= i < bound_sets(p).len() ==> slot_of(bound_sets(p)[i]) == (p, i),
{
}

} // verus!
