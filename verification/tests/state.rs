use r3gl::audio::state::copy_front;
use r3gl::audio::state::fill;
use r3gl::audio::state::PlayerState;
use r3gl::audio::stream::AudioBuffer;
use std::sync::mpsc;

fn buffer_of(blocks: Vec<Vec<f32>>, len: usize, planned: usize) -> AudioBuffer<f32> {
    let (tx, rx) = mpsc::channel();
    for block in blocks {
        tx.send(Some(block)).unwrap();
    }
    drop(tx);
    AudioBuffer::new(rx, len, planned)
}

fn ramp(n: usize) -> Vec<f32> {
    (1..=n).map(|i| i as f32).collect()
}

#[test]
fn new_state_is_stopped_and_paused() {
    let state: PlayerState<f32> = PlayerState::new(2, 48000, 0.0);
    assert!(state.is_paused());
    assert!(!state.finished());
    assert_eq!(state.position(), 0);
    assert_eq!(state.total_len(), None);
    assert_eq!(state.sample_rate(), 48000);
    assert_eq!(state.channel_count(), 2);
}

#[test]
fn fill_overwrites_every_sample() {
    let mut out = vec![1.0f32, 2.0, 3.0];
    fill(&mut out, 0.5);
    assert_eq!(out, vec![0.5, 0.5, 0.5]);
}

#[test]
fn copy_front_leaves_the_tail() {
    let mut out = vec![9.0f32; 5];
    assert_eq!(copy_front(&vec![1.0, 2.0], &mut out), 2);
    assert_eq!(out, vec![1.0, 2.0, 9.0, 9.0, 9.0]);
    let mut small = vec![9.0f32; 2];
    assert_eq!(copy_front(&vec![1.0, 2.0, 3.0], &mut small), 2);
    assert_eq!(small, vec![1.0, 2.0]);
}

#[test]
fn paused_write_is_all_silence() {
    let mut state: PlayerState<f32> = PlayerState::new(2, 48000, 0.0);
    state.load(buffer_of(vec![ramp(8)], 8, 1));
    state.seek(3);
    let mut out = vec![7.0f32; 6];
    assert_eq!(state.write_samples(&mut out), 6);
    assert_eq!(out, vec![0.0; 6]);
    assert_eq!(state.position(), 3);
    assert!(state.is_paused());
    assert!(!state.finished());
}

#[test]
fn paused_write_without_buffer_is_all_silence() {
    let mut state: PlayerState<f32> = PlayerState::new(1, 44100, 0.0);
    let mut out = vec![7.0f32; 4];
    assert_eq!(state.write_samples(&mut out), 4);
    assert_eq!(out, vec![0.0; 4]);
}

#[test]
fn unpaused_write_without_buffer_changes_nothing() {
    let mut state: PlayerState<f32> = PlayerState::new(1, 44100, 0.0);
    state.set_paused(false);
    let mut out = vec![7.0f32; 4];
    assert_eq!(state.write_samples(&mut out), 0);
    assert_eq!(out, vec![7.0; 4]);
    assert_eq!(state.position(), 0);
    assert!(!state.is_paused());
}

#[test]
fn playing_advances_by_whole_periods() {
    let mut state: PlayerState<f32> = PlayerState::new(2, 48000, 0.0);
    state.play(buffer_of(vec![ramp(4), ramp(8)], 12, 2));
    let mut out = vec![0.0f32; 4];
    let mut last = state.position();
    for _ in 0..3 {
        assert_eq!(state.write_samples(&mut out), 4);
        assert!(state.position() >= last);
        last = state.position();
    }
    assert_eq!(state.position(), 12);
    assert_eq!(out, vec![5.0, 6.0, 7.0, 8.0]);
    assert!(!state.is_paused());
    assert!(!state.finished());
}

#[test]
fn short_read_pauses_and_finishes_and_leaves_the_tail() {
    let mut state: PlayerState<f32> = PlayerState::new(2, 48000, 0.0);
    state.play(buffer_of(vec![ramp(6)], 6, 1));
    let mut out = vec![9.0f32; 4];
    assert_eq!(state.write_samples(&mut out), 4);
    assert_eq!(out, vec![1.0, 2.0, 3.0, 4.0]);
    let mut out = vec![9.0f32; 4];
    assert_eq!(state.write_samples(&mut out), 2);
    assert_eq!(out, vec![5.0, 6.0, 9.0, 9.0]);
    assert_eq!(state.position(), 8);
    assert!(state.is_paused());
    assert!(state.finished());
}

#[test]
fn seek_past_the_end_finishes_on_the_next_write() {
    let mut state: PlayerState<f32> = PlayerState::new(2, 48000, 0.0);
    state.play(buffer_of(vec![ramp(6)], 6, 1));
    state.seek(100);
    let mut out = vec![9.0f32; 4];
    assert_eq!(state.write_samples(&mut out), 0);
    assert_eq!(out, vec![9.0; 4]);
    assert!(state.finished());
    assert!(state.is_paused());
    assert_eq!(state.position(), 104);
}

#[test]
fn position_stops_at_the_largest_playhead() {
    let mut state: PlayerState<f32> = PlayerState::new(2, 48000, 0.0);
    state.play(buffer_of(vec![ramp(6)], 6, 1));
    state.seek(usize::MAX - 1);
    let mut out = vec![9.0f32; 4];
    assert_eq!(state.write_samples(&mut out), 0);
    assert_eq!(state.position(), usize::MAX);
    assert!(state.finished());
}

#[test]
fn pause_at_the_end_restarts() {
    let mut state: PlayerState<f32> = PlayerState::new(2, 48000, 0.0);
    state.play(buffer_of(vec![ramp(6)], 6, 1));
    state.seek(6);
    state.pause();
    assert_eq!(state.position(), 0);
    assert!(state.is_paused());
    state.seek(7);
    state.pause();
    assert_eq!(state.position(), 0);
    assert!(!state.is_paused());
}

#[test]
fn pause_before_the_end_only_toggles() {
    let mut state: PlayerState<f32> = PlayerState::new(2, 48000, 0.0);
    state.load(buffer_of(vec![ramp(6)], 6, 1));
    state.seek(5);
    state.pause();
    assert_eq!(state.position(), 5);
    assert!(!state.is_paused());
    state.pause();
    assert_eq!(state.position(), 5);
    assert!(state.is_paused());
}

#[test]
fn pause_without_buffer_only_toggles() {
    let mut state: PlayerState<f32> = PlayerState::new(2, 48000, 0.0);
    state.seek(5);
    state.pause();
    assert_eq!(state.position(), 5);
    assert!(!state.is_paused());
}

#[test]
fn load_rewinds_and_keeps_the_paused_flag() {
    let mut state: PlayerState<f32> = PlayerState::new(2, 48000, 0.0);
    state.play(buffer_of(vec![ramp(2)], 2, 1));
    let mut out = vec![0.0f32; 4];
    state.write_samples(&mut out);
    assert!(state.finished());
    assert!(state.is_paused());
    state.set_paused(false);
    state.load(buffer_of(vec![ramp(6)], 6, 1));
    assert_eq!(state.position(), 0);
    assert!(!state.finished());
    assert!(!state.is_paused());
    assert_eq!(state.total_len(), Some(6));
}

#[test]
fn stop_pauses_and_drops_the_buffer() {
    let mut state: PlayerState<f32> = PlayerState::new(2, 48000, 0.0);
    state.play(buffer_of(vec![ramp(6)], 6, 1));
    state.seek(3);
    state.stop();
    assert!(state.is_paused());
    assert_eq!(state.total_len(), None);
    assert_eq!(state.position(), 3);
}

#[test]
fn load_stop_cycles_release_every_producer() {
    let mut state: PlayerState<f32> = PlayerState::new(2, 48000, 0.0);
    for _ in 0..100 {
        let (tx, rx) = mpsc::channel();
        state.load(AudioBuffer::new(rx, 4, 1));
        assert!(tx.send(Some(vec![0.0f32])).is_ok());
        state.stop();
        assert!(tx.send(Some(vec![0.0f32])).is_err());
    }
}

#[test]
fn reload_releases_the_previous_producer() {
    let mut state: PlayerState<f32> = PlayerState::new(2, 48000, 0.0);
    let (first, rx) = mpsc::channel();
    state.load(AudioBuffer::new(rx, 4, 1));
    for _ in 0..100 {
        let (next, rx) = mpsc::channel();
        state.load(AudioBuffer::new(rx, 4, 1));
        assert!(next.send(Some(vec![0.0f32])).is_ok());
    }
    assert!(first.send(Some(vec![0.0f32])).is_err());
}

#[test]
fn deliver_accounts_for_a_period() {
    let mut state: PlayerState<f32> = PlayerState::new(2, 48000, 0.0);
    state.set_paused(false);
    let mut out = vec![9.0f32; 3];
    assert_eq!(state.deliver(&vec![1.0, 2.0, 3.0], false, &mut out), 3);
    assert_eq!(out, vec![1.0, 2.0, 3.0]);
    assert_eq!(state.position(), 3);
    assert!(!state.is_paused());
    assert_eq!(state.deliver(&vec![4.0], true, &mut out), 1);
    assert_eq!(out, vec![4.0, 2.0, 3.0]);
    assert_eq!(state.position(), 6);
    assert!(state.is_paused());
    assert!(state.finished());
}
