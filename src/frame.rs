//! Cutting a flat stream of samples into fixed-length frames and laying the
//! processed frames end to end again.

use vstd::prelude::*;
use vstd::arithmetic::div_mod::{lemma_fundamental_div_mod, lemma_fundamental_div_mod_converse, lemma_mod_bound};

verus! {

/// Number of samples in one frame, the unit of work of the vocoder.
pub const FRAME_LEN: usize = 1024;

/// The word a short final frame is padded with: the bit pattern of `0.0`.
pub const SILENCE: u32 = 0;

/// Number of frames that hold `n` samples.
pub open spec fn frames_needed(n: nat) -> nat {
    if n % (FRAME_LEN as nat) == 0 {
        n / (FRAME_LEN as nat)
    } else {
        n / (FRAME_LEN as nat) + 1
    }
}

/// Sample `j` of frame `k` when `samples` is cut into frames.
pub open spec fn padded_sample(samples: Seq<u32>, k: int, j: int) -> u32 {
    let i = k * (FRAME_LEN as int) + j;
    if 0 <= i < samples.len() {
        samples[i]
    } else {
        SILENCE
    }
}

/// `samples` cut into frames of `FRAME_LEN`, the last one padded with silence.
pub open spec fn framed(samples: Seq<u32>) -> Seq<Seq<u32>> {
    Seq::new(
        frames_needed(samples.len()),
        |k: int| Seq::new(FRAME_LEN as nat, |j: int| padded_sample(samples, k, j)),
    )
}

/// The first `n` samples of `frames` laid end to end.
pub open spec fn unframed(frames: Seq<Seq<u32>>, n: nat) -> Seq<u32> {
    Seq::new(n, |i: int| frames[i / (FRAME_LEN as int)][i % (FRAME_LEN as int)])
}

/// What each frame of `frames` holds.
pub open spec fn frame_views(frames: Seq<Vec<u32>>) -> Seq<Seq<u32>> {
    frames.map_values(|f: Vec<u32>| f@)
}

/// Every frame of `frames` is `FRAME_LEN` samples long.
pub open spec fn all_full(frames: Seq<Seq<u32>>) -> bool {
    forall|k: int| 0 <= k < frames.len() ==> #[trigger] frames[k].len() == FRAME_LEN
}

/// A sample index splits into a frame index and a position within the frame.
proof fn lemma_split_index(i: int)
    requires
        0 <= i,
    ensures
        i == (i / (FRAME_LEN as int)) * (FRAME_LEN as int) + i % (FRAME_LEN as int),
        0 <= i % (FRAME_LEN as int) < FRAME_LEN,
        0 <= i / (FRAME_LEN as int),
{
    lemma_fundamental_div_mod(i, (FRAME_LEN as int));
    lemma_mod_bound(i, (FRAME_LEN as int));
    assert(0 <= i / (FRAME_LEN as int)) by (nonlinear_arith)
        requires 0 <= i;
}

/// Number of frames that hold `n` samples.
pub fn frame_count(n: usize) -> (r: usize)
    ensures
        r == frames_needed(n as nat),
{
    if n % FRAME_LEN == 0 {
        n / FRAME_LEN
    } else {
        n / FRAME_LEN + 1
    }
}

/// Cuts `samples` into frames of `FRAME_LEN`, padding the last one with silence.
pub fn split_frames(samples: &[u32]) -> (r: Vec<Vec<u32>>)
    ensures
        frame_views(r@) == framed(samples@),
        r@.len() == frames_needed(samples@.len()),
        forall|k: int| 0 <= k < r@.len() ==> (#[trigger] r@[k])@ == framed(samples@)[k],
{
    let n = samples.len();
    let mut frames: Vec<Vec<u32>> = Vec::new();
    let mut current: Vec<u32> = Vec::new();
    let mut i: usize = 0;
    while i < n
        invariant
            n == samples@.len(),
            i <= n,
            i == frames@.len() * FRAME_LEN + current@.len(),
            current@.len() < FRAME_LEN,
            forall|k: int| 0 <= k < frames@.len() ==> (#[trigger] frames@[k])@ == framed(samples@)[k],
            forall|j: int|
                0 <= j < current@.len() ==> #[trigger] current@[j] == samples@[frames@.len() * FRAME_LEN + j],
        decreases n - i,
    {
        current.push(samples[i]);
        if current.len() == FRAME_LEN {
            let ghost k = frames@.len();
            proof {
                assert(k * FRAME_LEN + FRAME_LEN <= n);
                lemma_frames_bound(n as nat, k as nat);
                assert(current@ =~= framed(samples@)[k as int]);
            }
            frames.push(current);
            current = Vec::new();
        }
        i = i + 1;
    }
    if current.len() > 0 {
        let ghost filled = current@.len();
        while current.len() < FRAME_LEN
            invariant
                n == samples@.len(),
                n == frames@.len() * FRAME_LEN + filled,
                0 < filled <= current@.len() <= FRAME_LEN,
                forall|j: int| 0 <= j < filled ==> #[trigger] current@[j] == samples@[frames@.len() * FRAME_LEN + j],
                forall|j: int| filled <= j < current@.len() ==> #[trigger] current@[j] == SILENCE,
            decreases FRAME_LEN - current@.len(),
        {
            current.push(SILENCE);
        }
        let ghost k = frames@.len();
        proof {
            lemma_frames_bound(n as nat, k as nat);
            assert(current@ =~= framed(samples@)[k as int]);
        }
        frames.push(current);
        proof {
            lemma_fundamental_div_mod_converse(n as int, (FRAME_LEN as int), k as int, filled as int);
        }
    } else {
        proof {
            lemma_fundamental_div_mod_converse(n as int, (FRAME_LEN as int), frames@.len() as int, 0);
        }
    }
    proof {
        assert(frame_views(frames@) =~= framed(samples@));
    }
    frames
}

/// Frame `k` is one of the frames that hold `n` samples when it starts before `n`.
proof fn lemma_frames_bound(n: nat, k: nat)
    requires
        k * FRAME_LEN < n,
    ensures
        k < frames_needed(n),
{
    lemma_split_index(n as int);
    let q = n as int / (FRAME_LEN as int);
    let m = n as int % (FRAME_LEN as int);
    assert(k < frames_needed(n)) by (nonlinear_arith)
        requires
            k * 1024 < n,
            n == q * 1024 + m,
            0 <= m < 1024,
            frames_needed(n) == (if m == 0 { q } else { q + 1 }),
    ;
}

/// Lays `frames` end to end and keeps the first `n` samples.
pub fn join_frames(frames: &Vec<Vec<u32>>, n: usize) -> (r: Vec<u32>)
    requires
        all_full(frame_views(frames@)),
        n <= frames@.len() * FRAME_LEN,
    ensures
        r@ == unframed(frame_views(frames@), n as nat),
{
    let mut out: Vec<u32> = Vec::new();
    let mut i: usize = 0;
    while i < n
        invariant
            i <= n,
            n <= frames@.len() * FRAME_LEN,
            all_full(frame_views(frames@)),
            out@ =~= unframed(frame_views(frames@), i as nat),
        decreases n - i,
    {
        let k = i / FRAME_LEN;
        let j = i % FRAME_LEN;
        proof {
            lemma_split_index(i as int);
            let len = frames@.len();
            assert(k < len) by (nonlinear_arith)
                requires
                    i == k * 1024 + j,
                    0 <= j,
                    i < len * 1024,
            ;
            assert(frame_views(frames@)[k as int].len() == FRAME_LEN);
        }
        out.push(frames[k][j]);
        i = i + 1;
    }
    out
}

/// Cutting a stream into frames and laying them end to end again, trimmed to
/// the stream's length, gives back the stream.
pub proof fn lemma_unframe_framed(samples: Seq<u32>)
    ensures
        all_full(framed(samples)),
        framed(samples).len() * FRAME_LEN >= samples.len(),
        unframed(framed(samples), samples.len()) == samples,
{
    let n = samples.len();
    let frames = framed(samples);
    assert forall|i: int| 0 <= i < n implies #[trigger] unframed(frames, n)[i] == samples[i] by {
        lemma_split_index(i);
        let k = i / (FRAME_LEN as int);
        assert(k * FRAME_LEN <= i);
        lemma_frames_bound(n, k as nat);
    }
    assert(unframed(frames, n) =~= samples);
    lemma_split_index(n as int);
    let q = n as int / (FRAME_LEN as int);
    let m = n as int % (FRAME_LEN as int);
    assert(frames_needed(n) * 1024 >= n) by (nonlinear_arith)
        requires
            n == q * 1024 + m,
            0 <= m < 1024,
            frames_needed(n) == (if m == 0 { q } else { q + 1 }),
    ;
}

} // verus!
