use r3gl::audio::decoded::Audio;
use r3gl::audio::decoded::AudioError;
use r3gl::audio::resample::block_bounds;
use r3gl::audio::resample::block_count;
use r3gl::audio::resample::interleave;
use r3gl::audio::resample::resampled_len;
use r3gl::audio::resample::DECODE_BLOCK_SIZE;

#[test]
fn audio_keeps_its_channels() {
    let song = Audio::from_channels(vec![vec![1.0f32, 2.0], vec![3.0, 4.0]], 44100).unwrap();
    assert_eq!(song.sample_rate(), 44100);
    assert_eq!(song.channel_count(), 2);
    assert_eq!(song.frames(), 2);
    assert_eq!(song.sample(0, 1), 2.0);
    assert_eq!(song.sample(1, 0), 3.0);
}

#[test]
fn audio_without_channels_is_turned_down() {
    let none: Vec<Vec<f32>> = vec![];
    assert_eq!(Audio::from_channels(none, 44100).err(), Some(AudioError::NoChannels));
    assert_eq!(Audio::<f32>::empty(0, 44100).err(), Some(AudioError::NoChannels));
}

#[test]
fn audio_with_uneven_channels_is_turned_down() {
    let uneven = vec![vec![1.0f32, 2.0], vec![3.0]];
    assert_eq!(Audio::from_channels(uneven, 44100).err(), Some(AudioError::UnevenChannels));
}

#[test]
fn packets_are_split_by_channel() {
    let mut song: Audio<f32> = Audio::empty(2, 48000).unwrap();
    assert_eq!(song.frames(), 0);
    assert_eq!(song.push_packet(2, 48000, &[1.0, 10.0, 2.0, 20.0]), Ok(()));
    assert_eq!(song.push_packet(2, 48000, &[]), Ok(()));
    assert_eq!(song.push_packet(2, 48000, &[3.0, 30.0]), Ok(()));
    assert_eq!(song.frames(), 3);
    assert_eq!(song.sample(0, 0), 1.0);
    assert_eq!(song.sample(0, 1), 2.0);
    assert_eq!(song.sample(0, 2), 3.0);
    assert_eq!(song.sample(1, 0), 10.0);
    assert_eq!(song.sample(1, 1), 20.0);
    assert_eq!(song.sample(1, 2), 30.0);
}

#[test]
fn packets_of_another_format_are_turned_down() {
    let mut song: Audio<f32> = Audio::empty(2, 48000).unwrap();
    assert_eq!(song.push_packet(2, 48000, &[1.0, 10.0]), Ok(()));
    assert_eq!(song.push_packet(2, 44100, &[2.0, 20.0]), Err(AudioError::FormatMismatch));
    assert_eq!(song.push_packet(1, 48000, &[2.0]), Err(AudioError::FormatMismatch));
    assert_eq!(song.push_packet(2, 48000, &[2.0, 20.0, 3.0]), Err(AudioError::UnevenChannels));
    assert_eq!(song.frames(), 1);
    assert_eq!(song.sample(1, 0), 10.0);
}

#[test]
fn interleave_lays_frames_side_by_side() {
    let song = Audio::from_channels(vec![vec![1.0f32, 2.0, 3.0], vec![10.0, 20.0, 30.0]], 44100)
        .unwrap();
    assert_eq!(interleave(&song, 2), Some(vec![1.0, 10.0, 2.0, 20.0, 3.0, 30.0]));
}

#[test]
fn interleave_wraps_around_the_source_channels() {
    let mono = Audio::from_channels(vec![vec![1.0f32, 2.0]], 44100).unwrap();
    assert_eq!(interleave(&mono, 2), Some(vec![1.0, 1.0, 2.0, 2.0]));
    let stereo = Audio::from_channels(vec![vec![1.0f32, 2.0], vec![10.0, 20.0]], 44100).unwrap();
    assert_eq!(interleave(&stereo, 3), Some(vec![1.0, 10.0, 1.0, 2.0, 20.0, 2.0]));
    assert_eq!(interleave(&stereo, 1), Some(vec![1.0, 2.0]));
    assert_eq!(
        interleave(&stereo, 5),
        Some(vec![1.0, 10.0, 1.0, 10.0, 1.0, 2.0, 20.0, 2.0, 20.0, 2.0])
    );
}

#[test]
fn interleave_of_no_frames_is_empty() {
    let song: Audio<f32> = Audio::empty(2, 44100).unwrap();
    assert_eq!(interleave(&song, 2), Some(vec![]));
}

#[test]
fn resampled_len_scales_by_the_rates() {
    assert_eq!(resampled_len(441000, 48000, 44100), Some(480000));
    assert_eq!(resampled_len(44100, 44100, 44100), Some(44100));
    assert_eq!(resampled_len(48000, 44100, 48000), Some(44100));
    assert_eq!(resampled_len(10, 48000, 44100), Some(10));
    assert_eq!(resampled_len(100, 48000, 44100), Some(108));
    assert_eq!(resampled_len(0, 48000, 44100), Some(0));
    assert_eq!(resampled_len(7, 0, 44100), Some(0));
}

#[test]
fn resampled_len_fails_without_a_source_rate_or_room() {
    assert_eq!(resampled_len(10, 48000, 0), None);
    assert_eq!(resampled_len(usize::MAX, 2, 1), None);
    assert_eq!(resampled_len(usize::MAX, 1, 1), Some(usize::MAX));
}

#[test]
fn blocks_tile_the_input() {
    assert_eq!(DECODE_BLOCK_SIZE, 2240);
    assert_eq!(block_count(5000), 3);
    assert_eq!(block_bounds(5000, 0), (0, 2240, false));
    assert_eq!(block_bounds(5000, 1), (2240, 4480, false));
    assert_eq!(block_bounds(5000, 2), (4480, 5000, true));
    for len in [0usize, 1, 2239, 2240, 2241, 4480, 100_000] {
        let count = block_count(len);
        let mut at = 0;
        for index in 0..count {
            let (from, to, last) = block_bounds(len, index);
            assert_eq!(from, at);
            assert!(to - from <= DECODE_BLOCK_SIZE);
            assert_eq!(last, index + 1 == count);
            at = to;
        }
        assert_eq!(at, len);
    }
}

#[test]
fn the_last_block_may_be_empty() {
    assert_eq!(block_count(0), 1);
    assert_eq!(block_bounds(0, 0), (0, 0, true));
    assert_eq!(block_count(4480), 3);
    assert_eq!(block_bounds(4480, 1), (2240, 4480, false));
    assert_eq!(block_bounds(4480, 2), (4480, 4480, true));
}
