//! The orchestrator's per-frame protocol and the running state that
//! persists from one frame to the next.
//!
//! One frame goes through two steps: `begin_frame` validates the frame, advances
//! the running state and says what to hand the device (the input words and
//! the two dispatches); once the device has finished, `complete_frame` takes
//! what it wrote back and fills the caller's destination. The state kept here
//! is the host's record of the device's running state, advanced in step with
//! every frame that is dispatched.

use vstd::prelude::*;
use crate::frame::FRAME_LEN;

verus! {

/// Workgroups of the forward-transform dispatch along x: one for the frame.
pub const FORWARD_WORKGROUPS: u32 = 1;

/// Workgroups of the synthesis dispatch along x: one for each output sample.
pub const SYNTHESIS_WORKGROUPS: u32 = 1024;

/// Where the orchestrator stands in its per-frame protocol.
#[derive(Clone, Copy, Debug, PartialEq, Eq, Structural)]
pub enum Phase {
    /// Waiting for a frame.
    Ready,
    /// A frame was handed to the device and its result has not come back.
    AwaitingDevice,
    /// The device failed a submission or a fence wait; its context is lost.
    Failed,
}

/// Why a vocoder could not be built or could not process a frame.
#[derive(Clone, Copy, Debug, PartialEq, Eq, Structural)]
pub enum VocoderError {
    /// A source or destination frame is not `FRAME_LEN` samples long.
    FrameLength,
    /// The device failed a submission or a fence wait; the vocoder cannot be used again.
    DeviceLost,
    /// A pipeline, a buffer or a descriptor set could not be created.
    Construction,
}

/// The state carried across frames: samples processed so far, and the raw
/// input of the last frame.
pub struct RunningState {
    pub time: nat,
    pub history: Seq<u32>,
}

/// The running state before any frame: no time elapsed, a silent history.
pub open spec fn initial_state() -> RunningState {
    RunningState { time: 0, history: Seq::new(FRAME_LEN as nat, |i: int| 0u32) }
}

/// The running state after one more frame, `frame`.
pub open spec fn advanced(s: RunningState, frame: Seq<u32>) -> RunningState {
    RunningState { time: s.time + FRAME_LEN as nat, history: frame }
}

/// The running state after `frames`, in order, from the initial one.
pub open spec fn replay(frames: Seq<Seq<u32>>) -> RunningState
    decreases frames.len(),
{
    if frames.len() == 0 {
        initial_state()
    } else {
        advanced(replay(frames.drop_last()), frames.last())
    }
}

/// What the device is to do for one frame.
pub struct FrameSubmission {
    /// Words to write into the host-visible input buffer.
    pub input: Vec<u32>,
    /// Workgroups of the forward-transform dispatch along x.
    pub forward_workgroups: u32,
    /// Workgroups of the synthesis dispatch along x.
    pub synthesis_workgroups: u32,
}

/// The host side of the vocoder's per-frame protocol.
pub struct Orchestrator {
    time: u64,
    history: Vec<u32>,
    phase: Phase,
}

fn copy_samples(src: &[u32]) -> (r: Vec<u32>)
    ensures
        r@ == src@,
{
    let mut r: Vec<u32> = Vec::new();
    let mut i: usize = 0;
    while i < src.len()
        invariant
            i <= src@.len(),
            r@ == src@.subrange(0, i as int),
        decreases src@.len() - i,
    {
        r.push(src[i]);
        i = i + 1;
        assert(r@ =~= src@.subrange(0, i as int));
    }
    assert(r@ =~= src@);
    r
}

impl Orchestrator {
    /// The running state that this orchestrator records.
    pub closed spec fn running(&self) -> RunningState {
        RunningState { time: self.time as nat, history: self.history@ }
    }

    /// Where this orchestrator stands in its protocol.
    pub closed spec fn phase_spec(&self) -> Phase {
        self.phase
    }

    /// The history always holds one frame.
    pub closed spec fn wf(&self) -> bool {
        self.history@.len() == FRAME_LEN
    }

    /// An orchestrator whose device buffers have just been initialised.
    pub fn new() -> (r: Orchestrator)
        ensures
            r.wf(),
            r.running() == initial_state(),
            r.phase_spec() == Phase::Ready,
    {
        let mut history: Vec<u32> = Vec::new();
        while history.len() < FRAME_LEN
            invariant
                history@.len() <= FRAME_LEN,
                forall|i: int| 0 <= i < history@.len() ==> history@[i] == 0u32,
            decreases FRAME_LEN - history@.len(),
        {
            history.push(0);
        }
        let r = Orchestrator { time: 0, history, phase: Phase::Ready };
        assert(r.running().history =~= initial_state().history);
        r
    }

    /// Samples processed so far.
    pub fn time(&self) -> (r: u64)
        ensures
            r == self.running().time,
    {
        self.time
    }

    /// The raw input of the last frame, or silence before the first one.
    pub fn history(&self) -> (r: &[u32])
        ensures
            r@ == self.running().history,
    {
        self.history.as_slice()
    }

    /// Where this orchestrator stands in its protocol.
    pub fn phase(&self) -> (r: Phase)
        ensures
            r == self.phase_spec(),
    {
        self.phase
    }

    /// Accepts the frame `src`, to be written into a destination of
    /// `dest_len` samples, and says what the device is to do with it.
    ///
    /// A lost device refuses every frame; otherwise both lengths must be
    /// `FRAME_LEN`. An accepted frame advances the running state for good.
    pub fn begin_frame(&mut self, src: &[u32], dest_len: usize) -> (r: Result<FrameSubmission, VocoderError>)
        requires
            old(self).wf(),
            old(self).phase_spec() != Phase::AwaitingDevice,
            old(self).running().time + FRAME_LEN <= u64::MAX,
        ensures
            final(self).wf(),
            old(self).phase_spec() == Phase::Failed ==> r == Err::<FrameSubmission, VocoderError>(
                VocoderError::DeviceLost,
            ),
            old(self).phase_spec() == Phase::Ready && (src@.len() != FRAME_LEN || dest_len != FRAME_LEN)
                ==> r == Err::<FrameSubmission, VocoderError>(VocoderError::FrameLength),
            r.is_err() ==> final(self).running() == old(self).running() && final(self).phase_spec()
                == old(self).phase_spec(),
            old(self).phase_spec() == Phase::Ready && src@.len() == FRAME_LEN && dest_len == FRAME_LEN
                ==> r.is_ok(),
            r matches Ok(sub) ==> {
                &&& sub.input@ == src@
                &&& sub.forward_workgroups == FORWARD_WORKGROUPS
                &&& sub.synthesis_workgroups == SYNTHESIS_WORKGROUPS
                &&& sub.synthesis_workgroups as int == FRAME_LEN
                &&& final(self).running() == advanced(old(self).running(), src@)
                &&& final(self).phase_spec() == Phase::AwaitingDevice
            },
    {
        if self.phase == Phase::Failed {
            return Err(VocoderError::DeviceLost);
        }
        if src.len() != FRAME_LEN || dest_len != FRAME_LEN {
            return Err(VocoderError::FrameLength);
        }
        self.history = copy_samples(src);
        self.time = self.time + FRAME_LEN as u64;
        self.phase = Phase::AwaitingDevice;
        Ok(
            FrameSubmission {
                input: copy_samples(src),
                forward_workgroups: FORWARD_WORKGROUPS,
                synthesis_workgroups: SYNTHESIS_WORKGROUPS,
            },
        )
    }

    /// Ends the frame in flight with what the device wrote back: `None` when
    /// the submission or the fence wait failed. A readback of the wrong
    /// length is a device failure too.
    pub fn complete_frame(&mut self, readback: Option<&[u32]>, dest: &mut [u32]) -> (r: Result<(), VocoderError>)
        requires
            old(self).wf(),
            old(self).phase_spec() == Phase::AwaitingDevice,
            old(dest)@.len() == FRAME_LEN,
        ensures
            final(self).wf(),
            final(self).running() == old(self).running(),
            r.is_ok() <==> (readback matches Some(out) && out@.len() == FRAME_LEN),
            r.is_ok() ==> final(dest)@ == readback.unwrap()@ && final(self).phase_spec() == Phase::Ready,
            r.is_err() ==> r == Err::<(), VocoderError>(VocoderError::DeviceLost) && final(dest)@ == old(dest)@
                && final(self).phase_spec() == Phase::Failed,
    {
        match readback {
            Some(out) => {
                if out.len() != FRAME_LEN {
                    self.phase = Phase::Failed;
                    return Err(VocoderError::DeviceLost);
                }
                let mut i: usize = 0;
                while i < FRAME_LEN
                    invariant
                        i <= FRAME_LEN,
                        out@.len() == FRAME_LEN,
                        dest@.len() == FRAME_LEN,
                        forall|j: int| 0 <= j < i ==> dest@[j] == out@[j],
                    decreases FRAME_LEN - i,
                {
                    dest[i] = out[i];
                    i = i + 1;
                }
                assert(dest@ =~= out@);
                self.phase = Phase::Ready;
                Ok(())
            },
            None => {
                self.phase = Phase::Failed;
                Err(VocoderError::DeviceLost)
            },
        }
    }
}

/// After `n` frames the time counter stands at `n * FRAME_LEN`.
pub proof fn lemma_time_counter(frames: Seq<Seq<u32>>)
    ensures
        replay(frames).time == frames.len() * FRAME_LEN,
    decreases frames.len(),
{
    if frames.len() > 0 {
        lemma_time_counter(frames.drop_last());
    }
}

/// After a frame the history holds that frame's raw input; before the first
/// frame it is silent.
pub proof fn lemma_history_is_last_input(frames: Seq<Seq<u32>>)
    ensures
        frames.len() == 0 ==> replay(frames).history == Seq::new(FRAME_LEN as nat, |i: int| 0u32),
        frames.len() > 0 ==> replay(frames).history == frames.last(),
{
}

/// One more frame advances the running state reached by the earlier ones.
pub proof fn lemma_replay_push(frames: Seq<Seq<u32>>, frame: Seq<u32>)
    ensures
        replay(frames.push(frame)) == advanced(replay(frames), frame),
{
    assert(frames.push(frame).drop_last() =~= frames);
}

} // verus!
