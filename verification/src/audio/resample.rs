//! The plan that the resampling producer follows: the interleaved input, the
//! length the stream is advertised with, and the blocks the input is
//! converted in.

use crate::audio::decoded::Audio;
use crate::audio::decoded::AudioModel;
use vstd::prelude::*;

verus! {

/// The number of input samples that the producer converts at a time: enough
/// for about 1024 stereo output frames.
pub const DECODE_BLOCK_SIZE: usize = 2240;

/// The source channel that feeds output channel `channel`: output channels
/// beyond the source's wrap around.
pub open spec fn source_channel(channel: int, source_channels: int) -> int {
    channel % source_channels
}

/// The samples of `song` laid out frame by frame with `channel_count`
/// samples in each frame.
pub open spec fn interleaved<T>(song: AudioModel<T>, channel_count: nat) -> Seq<T>
    recommends
        song.wf(),
        channel_count > 0,
{
    Seq::new(
        song.frames() * channel_count,
        |i: int|
            song.channels[source_channel(
                i % (channel_count as int),
                song.channels.len() as int,
            )][i / (channel_count as int)],
    )
}

/// The length of `len` samples after resampling from `source_rate` to
/// `sample_rate`, rounded down.
pub open spec fn resampled(len: nat, sample_rate: nat, source_rate: nat) -> nat
    recommends
        source_rate > 0,
{
    (len * sample_rate) / source_rate
}

/// The number of blocks that `len` input samples are converted in. The last
/// block flushes the converter; it is empty when the blocks before it hold
/// all of the input.
pub open spec fn blocks_of(len: nat) -> nat {
    len / (DECODE_BLOCK_SIZE as nat) + 1
}

/// Where block `index` starts in the input.
pub open spec fn block_start(index: nat) -> nat {
    index * (DECODE_BLOCK_SIZE as nat)
}

/// Where block `index` ends in an input of `len` samples.
pub open spec fn block_end(len: nat, index: nat) -> nat {
    if block_start(index) + DECODE_BLOCK_SIZE <= len {
        block_start(index) + DECODE_BLOCK_SIZE as nat
    } else {
        len
    }
}

/// The blocks tile the input: the first starts at its start, each starts
/// where the one before it ends, none is longer than a block, and the last
/// ends at the end of the input.
pub proof fn lemma_blocks_tile(len: nat, index: nat)
    requires
        index < blocks_of(len),
    ensures
        block_start(0) == 0,
        block_start(index) <= block_end(len, index) <= len,
        block_end(len, index) - block_start(index) <= DECODE_BLOCK_SIZE,
        index + 1 < blocks_of(len) ==> block_end(len, index) == block_start(index + 1),
        index + 1 == blocks_of(len) ==> block_end(len, index) == len,
{
    let b = DECODE_BLOCK_SIZE as int;
    let l = len as int;
    let i = index as int;
    assert((l / b) * b <= l < (l / b) * b + b) by (nonlinear_arith)
        requires
            b > 0,
            l >= 0,
    ;
    assert(i * b <= (l / b) * b) by (nonlinear_arith)
        requires
            i <= l / b,
            b > 0,
    ;
    assert((i + 1) * b == i * b + b) by (nonlinear_arith);
    if i + 1 < blocks_of(len) {
        assert((i + 1) * b <= (l / b) * b) by (nonlinear_arith)
            requires
                i + 1 <= l / b,
                b > 0,
        ;
    }
}

/// Lays the samples of `song` out frame by frame for `channel_count` output
/// channels, each fed by the source channel it wraps around to. Returns
/// `None` exactly when that many samples cannot be addressed.
pub fn interleave<T: Copy>(song: &Audio<T>, channel_count: usize) -> (samples: Option<Vec<T>>)
    requires
        song.wf(),
        channel_count > 0,
    ensures
        match samples {
            Some(samples) => samples@ == interleaved(song@, channel_count as nat),
            None => song@.frames() * channel_count > usize::MAX,
        },
{
    proof {
        song.lemma_wf();
    }
    let frames: usize = song.frames();
    let sources: usize = song.channel_count();
    let total: usize = match frames.checked_mul(channel_count) {
        Some(total) => total,
        None => {
            return None;
        },
    };
    let mut samples: Vec<T> = Vec::new();
    let mut frame: usize = 0;
    while frame < frames
        invariant
            song.wf(),
            song@.wf(),
            frames == song@.frames(),
            sources == song@.channels.len(),
            channel_count > 0,
            total == frames * channel_count,
            frame <= frames,
            samples@.len() == frame * channel_count,
            forall|i: int|
                0 <= i < samples@.len() ==> #[trigger] samples@[i] == interleaved(
                    song@,
                    channel_count as nat,
                )[i],
        decreases frames - frame,
    {
        let mut channel: usize = 0;
        while channel < channel_count
            invariant
                song.wf(),
                song@.wf(),
                frames == song@.frames(),
                sources == song@.channels.len(),
                channel_count > 0,
                total == frames * channel_count,
                frame < frames,
                channel <= channel_count,
                samples@.len() == frame * channel_count + channel,
                forall|i: int|
                    0 <= i < samples@.len() ==> #[trigger] samples@[i] == interleaved(
                        song@,
                        channel_count as nat,
                    )[i],
            decreases channel_count - channel,
        {
            proof {
                let cc = channel_count as int;
                let f = frame as int;
                let c = channel as int;
                assert(f * cc + c < frames * cc) by (nonlinear_arith)
                    requires
                        0 <= f < frames,
                        0 <= c < cc,
                ;
                assert((f * cc + c) / cc == f && (f * cc + c) % cc == c) by (nonlinear_arith)
                    requires
                        0 <= f,
                        0 <= c < cc,
                ;
            }
            let sample: T = song.sample(channel % sources, frame);
            samples.push(sample);
            channel += 1;
        }
        proof {
            assert((frame + 1) * channel_count == frame * channel_count + channel_count)
                by (nonlinear_arith);
        }
        frame += 1;
    }
    assert(samples@ =~= interleaved(song@, channel_count as nat));
    Some(samples)
}

/// The length that a stream of `len` input samples is advertised with after
/// resampling from `source_rate` to `sample_rate`. Returns `None` exactly
/// when the source rate is zero or the length cannot be held.
pub fn resampled_len(len: usize, sample_rate: u32, source_rate: u32) -> (out: Option<usize>)
    ensures
        match out {
            Some(out) => source_rate > 0 && out == resampled(
                len as nat,
                sample_rate as nat,
                source_rate as nat,
            ),
            None => source_rate == 0 || resampled(
                len as nat,
                sample_rate as nat,
                source_rate as nat,
            ) > usize::MAX,
        },
{
    if source_rate == 0 {
        return None;
    }
    assert(len * sample_rate <= usize::MAX * u32::MAX) by (nonlinear_arith)
        requires
            len <= usize::MAX,
            sample_rate <= u32::MAX,
    ;
    let scaled: u128 = (len as u128 * sample_rate as u128) / (source_rate as u128);
    if scaled <= usize::MAX as u128 {
        Some(scaled as usize)
    } else {
        None
    }
}

/// The number of blocks that `len` input samples are converted in.
pub fn block_count(len: usize) -> (count: usize)
    ensures
        count == blocks_of(len as nat),
{
    len / DECODE_BLOCK_SIZE + 1
}

/// The bounds of block `index` in an input of `len` samples, and whether it
/// is the last block, the one that flushes the converter.
pub fn block_bounds(len: usize, index: usize) -> (bounds: (usize, usize, bool))
    requires
        index < blocks_of(len as nat),
    ensures
        bounds.0 == block_start(index as nat),
        bounds.1 == block_end(len as nat, index as nat),
        bounds.2 == (index + 1 == blocks_of(len as nat)),
        bounds.0 <= bounds.1 <= len,
{
    proof {
        lemma_blocks_tile(len as nat, index as nat);
    }
    let start: usize = index * DECODE_BLOCK_SIZE;
    let end: usize = if len - start >= DECODE_BLOCK_SIZE {
        start + DECODE_BLOCK_SIZE
    } else {
        len
    };
    (start, end, index == len / DECODE_BLOCK_SIZE)
}

} // verus!
