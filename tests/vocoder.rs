use vocoder_volcano::bindings::{pipeline_sets, slot, PipelineKind, StageBinding};
use vocoder_volcano::frame::{frame_count, join_frames, split_frames, FRAME_LEN, SILENCE};
use vocoder_volcano::orchestrator::{
    Orchestrator, Phase, VocoderError, FORWARD_WORKGROUPS, SYNTHESIS_WORKGROUPS,
};
use vocoder_volcano::settings::{
    VocoderSettings, DEFAULT_DELAY_BITS, DEFAULT_MIX_SPAN_BITS, UNIT_RATIO_BITS,
};

fn ramp(n: usize, start: u32) -> Vec<u32> {
    (0..n).map(|i| start + i as u32).collect()
}

fn run_frame(o: &mut Orchestrator, src: &[u32], device_out: &[u32]) -> Vec<u32> {
    let mut dest = vec![0u32; FRAME_LEN];
    let sub = o.begin_frame(src, dest.len()).unwrap();
    assert_eq!(sub.input, src.to_vec());
    o.complete_frame(Some(device_out), &mut dest).unwrap();
    dest
}

#[test]
fn frame_count_rounds_up() {
    assert_eq!(frame_count(0), 0);
    assert_eq!(frame_count(1), 1);
    assert_eq!(frame_count(1024), 1);
    assert_eq!(frame_count(1025), 2);
    assert_eq!(frame_count(3000), 3);
}

#[test]
fn split_pads_last_frame_with_silence() {
    let samples = ramp(1500, 7);
    let frames = split_frames(&samples);
    assert_eq!(frames.len(), 2);
    assert!(frames.iter().all(|f| f.len() == FRAME_LEN));
    assert_eq!(frames[0][0], 7);
    assert_eq!(frames[0][1023], 7 + 1023);
    assert_eq!(frames[1][0], 7 + 1024);
    assert_eq!(frames[1][475], 7 + 1499);
    assert_eq!(frames[1][476], SILENCE);
    assert_eq!(frames[1][1023], 0);
}

#[test]
fn split_exact_multiple_adds_no_frame() {
    let samples = ramp(2048, 1);
    let frames = split_frames(&samples);
    assert_eq!(frames.len(), 2);
    assert_eq!(frames[1][1023], 2048);
}

#[test]
fn split_empty_stream_gives_no_frames() {
    assert!(split_frames(&[]).is_empty());
}

#[test]
fn join_trims_to_length() {
    let frames = vec![ramp(FRAME_LEN, 0), ramp(FRAME_LEN, 5000)];
    let joined = join_frames(&frames, 1030);
    assert_eq!(joined.len(), 1030);
    assert_eq!(joined[1023], 1023);
    assert_eq!(joined[1024], 5000);
    assert_eq!(joined[1029], 5005);
}

#[test]
fn split_then_join_gives_back_the_stream() {
    for n in [0usize, 1, 1023, 1024, 1025, 4000] {
        let samples = ramp(n, 3);
        let frames = split_frames(&samples);
        assert_eq!(join_frames(&frames, n), samples);
    }
}

#[test]
fn default_settings_words() {
    let s = VocoderSettings::default();
    assert_eq!(s.pitch_shift_ratio, 1.0f32.to_bits());
    assert_eq!(s.delay, 341.0f32.to_bits());
    assert_eq!(s.mix_span, 0.9f32.to_bits());
    assert_eq!(UNIT_RATIO_BITS, 1.0f32.to_bits());
    assert_eq!(DEFAULT_DELAY_BITS, 341.0f32.to_bits());
    assert_eq!(DEFAULT_MIX_SPAN_BITS, 0.9f32.to_bits());
    let eq: Vec<f32> = s.equalizer.iter().map(|b| f32::from_bits(*b)).collect();
    assert_eq!(eq, vec![1.0, 0.0, 0.0, 0.0, 0.0, 0.0, 0.0, 0.0]);
    let warp: Vec<f32> = s.envelope_warp.iter().map(|b| f32::from_bits(*b)).collect();
    assert_eq!(warp, vec![0.0, 1.0, 0.0, 0.0, 0.0, 0.0, 0.0, 0.0]);
}

#[test]
fn pitch_shift_params_in_buffer_order() {
    let s = VocoderSettings {
        pitch_shift_ratio: 0.8f32.to_bits(),
        ..VocoderSettings::default()
    };
    assert_eq!(
        s.pitch_shift_params(),
        [0.8f32.to_bits(), 341.0f32.to_bits(), 0.9f32.to_bits()]
    );
}

#[test]
fn fresh_orchestrator_is_ready_and_silent() {
    let o = Orchestrator::new();
    assert_eq!(o.time(), 0);
    assert_eq!(o.phase(), Phase::Ready);
    assert_eq!(o.history(), vec![0u32; FRAME_LEN].as_slice());
}

#[test]
fn accepted_frame_plans_both_dispatches() {
    let mut o = Orchestrator::new();
    let src = ramp(FRAME_LEN, 100);
    let sub = o.begin_frame(&src, FRAME_LEN).unwrap();
    assert_eq!(sub.input, src);
    assert_eq!(sub.forward_workgroups, 1);
    assert_eq!(sub.synthesis_workgroups, 1024);
    assert_eq!(FORWARD_WORKGROUPS, 1);
    assert_eq!(SYNTHESIS_WORKGROUPS as usize, FRAME_LEN);
    assert_eq!(o.phase(), Phase::AwaitingDevice);
    assert_eq!(o.time(), 1024);
}

#[test]
fn time_counter_after_n_frames() {
    let mut o = Orchestrator::new();
    let out = ramp(FRAME_LEN, 0);
    for n in 1..=5u64 {
        let src = ramp(FRAME_LEN, n as u32);
        run_frame(&mut o, &src, &out);
        assert_eq!(o.time(), n * 1024);
    }
}

#[test]
fn history_holds_last_input() {
    let mut o = Orchestrator::new();
    let out = vec![0u32; FRAME_LEN];
    let first = ramp(FRAME_LEN, 10);
    let second = ramp(FRAME_LEN, 20000);
    run_frame(&mut o, &first, &out);
    assert_eq!(o.history(), first.as_slice());
    run_frame(&mut o, &second, &out);
    assert_eq!(o.history(), second.as_slice());
}

#[test]
fn readback_fills_destination() {
    let mut o = Orchestrator::new();
    let out = ramp(FRAME_LEN, 77);
    let dest = run_frame(&mut o, &vec![0u32; FRAME_LEN], &out);
    assert_eq!(dest, out);
    assert_eq!(o.phase(), Phase::Ready);
}

#[test]
fn short_source_is_refused() {
    let mut o = Orchestrator::new();
    let src = ramp(FRAME_LEN - 1, 0);
    assert_eq!(o.begin_frame(&src, FRAME_LEN).err(), Some(VocoderError::FrameLength));
    assert_eq!(o.time(), 0);
    assert_eq!(o.phase(), Phase::Ready);
    assert_eq!(o.history(), vec![0u32; FRAME_LEN].as_slice());
}

#[test]
fn long_source_is_refused() {
    let mut o = Orchestrator::new();
    let src = ramp(FRAME_LEN + 1, 0);
    assert_eq!(o.begin_frame(&src, FRAME_LEN).err(), Some(VocoderError::FrameLength));
    assert_eq!(o.time(), 0);
}

#[test]
fn wrong_destination_length_is_refused() {
    let mut o = Orchestrator::new();
    let src = ramp(FRAME_LEN, 0);
    assert_eq!(o.begin_frame(&src, 512).err(), Some(VocoderError::FrameLength));
    assert_eq!(o.time(), 0);
}

#[test]
fn device_failure_is_final() {
    let mut o = Orchestrator::new();
    let src = ramp(FRAME_LEN, 0);
    let mut dest = vec![9u32; FRAME_LEN];
    o.begin_frame(&src, FRAME_LEN).unwrap();
    assert_eq!(o.complete_frame(None, &mut dest), Err(VocoderError::DeviceLost));
    assert_eq!(dest, vec![9u32; FRAME_LEN]);
    assert_eq!(o.phase(), Phase::Failed);
    assert_eq!(o.begin_frame(&src, FRAME_LEN).err(), Some(VocoderError::DeviceLost));
    assert_eq!(o.time(), 1024);
}

#[test]
fn short_readback_is_a_device_failure() {
    let mut o = Orchestrator::new();
    let src = ramp(FRAME_LEN, 0);
    let mut dest = vec![0u32; FRAME_LEN];
    o.begin_frame(&src, FRAME_LEN).unwrap();
    let short = ramp(10, 0);
    assert_eq!(o.complete_frame(Some(&short), &mut dest), Err(VocoderError::DeviceLost));
    assert_eq!(o.phase(), Phase::Failed);
}

#[test]
fn pipelines_bind_sets_in_fixed_order() {
    assert_eq!(
        pipeline_sets(PipelineKind::Forward),
        vec![StageBinding::FourierForward, StageBinding::PitchShiftForward]
    );
    assert_eq!(
        pipeline_sets(PipelineKind::Synthesis),
        vec![
            StageBinding::FourierInverse,
            StageBinding::PitchShiftInverse,
            StageBinding::Equalizer,
            StageBinding::EnvelopeWarp,
        ]
    );
    assert_eq!(slot(StageBinding::PitchShiftForward), (PipelineKind::Forward, 1));
    assert_eq!(slot(StageBinding::EnvelopeWarp), (PipelineKind::Synthesis, 3));
    for p in [PipelineKind::Forward, PipelineKind::Synthesis] {
        for (i, b) in pipeline_sets(p).into_iter().enumerate() {
            assert_eq!(slot(b), (p, i));
        }
    }
}
