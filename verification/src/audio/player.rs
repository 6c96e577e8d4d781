//! The transport: the control surface over the playback state, with the
//! playhead expressed as time.

use crate::audio::resample::resampled;
use crate::audio::state::PlayerState;
use crate::audio::state::StateModel;
use crate::audio::stream::AudioBuffer;
use vstd::prelude::*;

verus! {

/// Nanoseconds in one second.
pub const NANOS_PER_SECOND: u128 = 1_000_000_000;

/// Samples that are played per second: frames per second times samples per
/// frame.
pub open spec fn samples_per_second(sample_rate: nat, channel_count: nat) -> nat {
    sample_rate * channel_count
}

/// The time of the sample at `position`: the first whole nanosecond that is
/// not before the instant at which the sample is played.
pub open spec fn time_of_position(position: nat, per_second: nat) -> nat
    recommends
        per_second > 0,
{
    ((position * NANOS_PER_SECOND as nat + per_second - 1) / (per_second as int)) as nat
}

/// The sample that is being played at `time` nanoseconds: the last one whose
/// instant is not after `time`.
pub open spec fn position_of_time(time: nat, per_second: nat) -> nat {
    (time * per_second) / (NANOS_PER_SECOND as nat)
}

/// The playhead that a seek to `time` nanoseconds sets: the sample played at
/// that time, held at the largest playhead the machine can hold.
pub open spec fn seek_target(time: nat, per_second: nat) -> nat {
    if position_of_time(time, per_second) <= usize::MAX {
        position_of_time(time, per_second)
    } else {
        usize::MAX as nat
    }
}

/// Why a query of the transport failed.
#[derive(Debug, Clone, Copy, PartialEq, Eq, Structural)]
pub enum PlayerError {
    /// No audio is loaded.
    NoAudioLoaded,
}

/// Splitting a time into whole seconds and the rest does not change the
/// sample it falls on.
pub proof fn lemma_position_by_seconds(seconds: nat, rest: nat, per_second: nat)
    requires
        rest < NANOS_PER_SECOND,
    ensures
        position_of_time(seconds * (NANOS_PER_SECOND as nat) + rest, per_second) == seconds
            * per_second + (rest * per_second) / (NANOS_PER_SECOND as nat),
{
    let n = NANOS_PER_SECOND as int;
    let s = seconds as int;
    let r = rest as int;
    let u = per_second as int;
    assert((s * n + r) * u == (s * u) * n + r * u) by (nonlinear_arith);
    assert(((s * u) * n + r * u) / n == s * u + (r * u) / n) by (nonlinear_arith)
        requires
            n > 0,
    ;
}

/// The time of a position is the first nanosecond that is not before the
/// instant of the sample: `time * per_second >= position * NANOS_PER_SECOND`,
/// and no earlier nanosecond has that.
pub proof fn lemma_time_of_position(position: nat, per_second: nat)
    requires
        per_second > 0,
    ensures
        time_of_position(position, per_second) * per_second >= position * NANOS_PER_SECOND,
        time_of_position(position, per_second) * per_second < position * NANOS_PER_SECOND
            + per_second,
{
    let n = NANOS_PER_SECOND as int;
    let p = position as int;
    let u = per_second as int;
    let g = (p * n + u - 1) / u;
    assert(0 <= p * n) by (nonlinear_arith)
        requires
            0 <= p,
            0 < n,
    ;
    assert(g * u <= p * n + u - 1 && p * n + u - 1 < g * u + u) by (nonlinear_arith)
        requires
            g == (p * n + u - 1) / u,
            u > 0,
    ;
    assert(g >= 0) by (nonlinear_arith)
        requires
            p * n + u - 1 < g * u + u,
            0 <= p * n,
            u > 0,
    ;
}

/// Seeking to a time and reading the time back stays within the time of one
/// sample, and never gains: with `back` the time read after a seek to `time`
/// that the playhead can hold, `back <= time` and
/// `(time - back) * per_second < NANOS_PER_SECOND`.
pub proof fn lemma_seek_then_time(time: nat, per_second: nat)
    requires
        per_second > 0,
        position_of_time(time, per_second) <= usize::MAX,
    ensures
        time_of_position(seek_target(time, per_second), per_second) <= time,
        (time - time_of_position(seek_target(time, per_second), per_second)) * per_second
            < NANOS_PER_SECOND,
        (time - time_of_position(seek_target(time, per_second), per_second)) * per_second
            <= NANOS_PER_SECOND,
{
    let n = NANOS_PER_SECOND as int;
    let t = time as int;
    let u = per_second as int;
    let p = (t * u) / n;
    let g = time_of_position(p as nat, per_second) as int;
    assert(0 <= t * u) by (nonlinear_arith)
        requires
            0 <= t,
            0 < u,
    ;
    assert(p * n <= t * u && t * u < p * n + n) by (nonlinear_arith)
        requires
            p == (t * u) / n,
            n > 0,
    ;
    assert(p >= 0) by (nonlinear_arith)
        requires
            t * u < p * n + n,
            0 <= t * u,
            n > 0,
    ;
    lemma_time_of_position(p as nat, per_second);
    assert(g <= t) by (nonlinear_arith)
        requires
            g * u < p * n + u,
            p * n <= t * u,
            u > 0,
    ;
    assert((t - g) * u == t * u - g * u) by (nonlinear_arith);
}

/// A resampled stream keeps the duration of its source, up to rounding. For
/// `len` interleaved source samples at `source_rate`, resampled to
/// `sample_rate` and played with `channel_count` channels, the time of the
/// advertised end lies less than the time of one output sample before the
/// end of the source and less than a nanosecond behind it: with `time` that
/// time, `(len * NANOS_PER_SECOND - time * channel_count * source_rate) *
/// sample_rate < source_rate * NANOS_PER_SECOND` and `time * channel_count *
/// source_rate < len * NANOS_PER_SECOND + channel_count * source_rate`.
pub proof fn lemma_length_keeps_duration(
    len: nat,
    sample_rate: nat,
    source_rate: nat,
    channel_count: nat,
)
    requires
        sample_rate > 0,
        source_rate > 0,
        channel_count > 0,
    ensures
        ({
            let total = resampled(len, sample_rate, source_rate);
            let time = time_of_position(total, samples_per_second(sample_rate, channel_count));
            &&& (len * NANOS_PER_SECOND - time * channel_count * source_rate) * sample_rate
                < source_rate * NANOS_PER_SECOND
            &&& time * channel_count * source_rate < len * NANOS_PER_SECOND + channel_count
                * source_rate
        }),
{
    let n = NANOS_PER_SECOND as int;
    let l = len as int;
    let sc = sample_rate as int;
    let sr = source_rate as int;
    let c = channel_count as int;
    let u = sc * c;
    let total = (l * sc) / sr;
    assert(u > 0) by (nonlinear_arith)
        requires
            u == sc * c,
            sc > 0,
            c > 0,
    ;
    assert(0 <= l * sc) by (nonlinear_arith)
        requires
            0 <= l,
            0 < sc,
    ;
    assert(total * sr <= l * sc && l * sc < total * sr + sr) by (nonlinear_arith)
        requires
            total == (l * sc) / sr,
            sr > 0,
    ;
    assert(total >= 0) by (nonlinear_arith)
        requires
            l * sc < total * sr + sr,
            0 <= l * sc,
            sr > 0,
    ;
    lemma_time_of_position(total as nat, u as nat);
    let time = time_of_position(total as nat, u as nat) as int;
    // Scale both chains to the common unit `sr * n`.
    assert(time * u * sr >= total * n * sr) by (nonlinear_arith)
        requires
            time * u >= total * n,
            sr > 0,
    ;
    assert(total * n * sr > l * sc * n - sr * n) by (nonlinear_arith)
        requires
            l * sc < total * sr + sr,
            n > 0,
    ;
    assert(time * u * sr < total * n * sr + u * sr) by (nonlinear_arith)
        requires
            time * u < total * n + u,
            sr > 0,
    ;
    assert(total * n * sr <= l * sc * n) by (nonlinear_arith)
        requires
            total * sr <= l * sc,
            n > 0,
    ;
    assert(time * u * sr == (time * c * sr) * sc) by (nonlinear_arith)
        requires
            u == sc * c,
    ;
    assert(l * sc * n == (l * n) * sc) by (nonlinear_arith);
    assert(u * sr == (c * sr) * sc) by (nonlinear_arith)
        requires
            u == sc * c,
    ;
    assert((l * n - time * c * sr) * sc == (l * n) * sc - (time * c * sr) * sc)
        by (nonlinear_arith);
    assert(time * c * sr < l * n + c * sr) by (nonlinear_arith)
        requires
            (time * c * sr) * sc < (l * n) * sc + (c * sr) * sc,
            sc > 0,
    ;
}

/// The transport over a [`PlayerState`].
#[verifier::reject_recursive_types(T)]
pub struct Player<T> {
    player_state: PlayerState<T>,
}

impl<T> View for Player<T> {
    type V = StateModel<T>;

    closed spec fn view(&self) -> StateModel<T> {
        self.player_state@
    }
}

impl<T: Copy> Player<T> {
    /// The playback state is well formed.
    pub closed spec fn wf(&self) -> bool {
        self.player_state.wf()
    }

    /// Samples played per second in this transport's output format.
    pub open spec fn per_second(&self) -> nat {
        samples_per_second(self@.sample_rate, self@.channel_count)
    }

    /// A stopped, paused transport for the given output format.
    pub fn new(channel_count: u32, sample_rate: u32, silence: T) -> (player: Self)
        requires
            channel_count > 0,
            sample_rate > 0,
        ensures
            player.wf(),
            player@ == (StateModel::<T> {
                buffer: None,
                position: 0,
                paused: true,
                finished: false,
                sample_rate: sample_rate as nat,
                channel_count: channel_count as nat,
                silence,
            }),
    {
        Player { player_state: PlayerState::new(channel_count, sample_rate, silence) }
    }

    /// Samples played per second, which is never zero.
    fn rate(&self) -> (per_second: u128)
        requires
            self.wf(),
        ensures
            per_second == self.per_second(),
            per_second > 0,
            per_second <= u32::MAX * usize::MAX,
    {
        let rate: u128 = self.player_state.sample_rate() as u128;
        let channels: u128 = self.player_state.channel_count() as u128;
        assert(0 < rate * channels <= u32::MAX * usize::MAX) by (nonlinear_arith)
            requires
                0 < rate <= u32::MAX,
                0 < channels <= usize::MAX,
        ;
        rate * channels
    }

    /// The time of `position`, in nanoseconds.
    fn time_at(&self, position: usize) -> (time: u128)
        requires
            self.wf(),
        ensures
            time == time_of_position(position as nat, self.per_second()),
    {
        let per_second = self.rate();
        assert(position * NANOS_PER_SECOND <= usize::MAX * NANOS_PER_SECOND) by (nonlinear_arith)
            requires
                position <= usize::MAX,
        ;
        (position as u128 * NANOS_PER_SECOND + per_second - 1) / per_second
    }

    /// Whether playback ran into the end of the stream.
    pub fn finished(&self) -> (finished: bool)
        ensures
            finished == self@.finished,
    {
        self.player_state.finished()
    }

    /// The length of the loaded stream in nanoseconds: the time of its
    /// advertised end. Fails exactly when nothing is loaded.
    pub fn length(&self) -> (length: Result<u128, PlayerError>)
        requires
            self.wf(),
        ensures
            match self@.buffer {
                Some(buffer) => length == Ok::<u128, PlayerError>(
                    time_of_position(buffer.total_len, self.per_second()) as u128,
                ),
                None => length == Err::<u128, PlayerError>(PlayerError::NoAudioLoaded),
            },
    {
        match self.player_state.total_len() {
            Some(len) => Ok(self.time_at(len)),
            None => Err(PlayerError::NoAudioLoaded),
        }
    }

    /// The time of the playhead in nanoseconds.
    pub fn get_time(&self) -> (time: u128)
        requires
            self.wf(),
        ensures
            time == time_of_position(self@.position, self.per_second()),
    {
        self.time_at(self.player_state.position())
    }

    /// Puts the playhead on the sample that is played at `time` nanoseconds.
    pub fn set_time(&mut self, time: u128)
        requires
            old(self).wf(),
        ensures
            final(self).wf(),
            final(self)@ == (StateModel {
                position: seek_target(time as nat, old(self).per_second()),
                ..old(self)@
            }),
    {
        let per_second = self.rate();
        let seconds: u128 = time / NANOS_PER_SECOND;
        let rest: u128 = time % NANOS_PER_SECOND;
        proof {
            lemma_position_by_seconds(seconds as nat, rest as nat, per_second as nat);
            assert(rest * per_second <= NANOS_PER_SECOND * (u32::MAX * usize::MAX))
                by (nonlinear_arith)
                requires
                    rest < NANOS_PER_SECOND,
                    per_second <= u32::MAX * usize::MAX,
            ;
        }
        let within: u128 = (rest * per_second) / NANOS_PER_SECOND;
        let limit: u128 = usize::MAX as u128;
        let target: usize = match seconds.checked_mul(per_second) {
            Some(whole) => match whole.checked_add(within) {
                Some(position) => if position <= limit {
                    position as usize
                } else {
                    usize::MAX
                },
                None => usize::MAX,
            },
            None => usize::MAX,
        };
        self.player_state.seek(target);
    }

    /// Replaces the stream with `buffer` and puts the playhead at its start.
    /// The paused flag stays as it is.
    pub fn load(&mut self, buffer: AudioBuffer<T>)
        requires
            old(self).wf(),
        ensures
            final(self).wf(),
            final(self)@ == (StateModel {
                buffer: Some(buffer@),
                position: 0,
                finished: false,
                ..old(self)@
            }),
    {
        self.player_state.load(buffer);
    }

    /// Unpauses, then loads `buffer`.
    pub fn play(&mut self, buffer: AudioBuffer<T>)
        requires
            old(self).wf(),
        ensures
            final(self).wf(),
            final(self)@ == (StateModel {
                buffer: Some(buffer@),
                position: 0,
                paused: false,
                finished: false,
                ..old(self)@
            }),
    {
        self.player_state.play(buffer);
    }

    /// Pauses and drops the stream, which tells its producer to stop.
    pub fn stop(&mut self)
        requires
            old(self).wf(),
        ensures
            final(self).wf(),
            final(self)@ == (StateModel { buffer: None, paused: true, ..old(self)@ }),
    {
        self.player_state.stop();
    }

    /// Flips the paused flag. With the playhead at or past the advertised
    /// end of the stream, the playhead first goes back to the start.
    pub fn pause(&mut self)
        requires
            old(self).wf(),
        ensures
            final(self).wf(),
            final(self)@ == old(self)@.toggled(),
    {
        self.player_state.pause();
    }

    /// Sets the paused flag and nothing else.
    pub fn set_paused(&mut self, state: bool)
        requires
            old(self).wf(),
        ensures
            final(self).wf(),
            final(self)@ == (StateModel { paused: state, ..old(self)@ }),
    {
        self.player_state.set_paused(state);
    }

    /// Whether playback is paused.
    pub fn is_paused(&self) -> (paused: bool)
        ensures
            paused == self@.paused,
    {
        self.player_state.is_paused()
    }

    /// Fills one hardware period; see [`PlayerState::write_samples`].
    pub fn write_samples(&mut self, output: &mut [T]) -> (written: usize)
        requires
            old(self).wf(),
        ensures
            final(self).wf(),
            final(self)@ == old(self)@.after_write(final(self)@.buffer, old(output)@.len()),
            final(self)@.position >= old(self)@.position,
            old(self)@.paused ==> {
                &&& final(self)@ == old(self)@
                &&& final(output)@ == Seq::new(old(output)@.len(), |i: int| old(self)@.silence)
                &&& written == old(output)@.len()
            },
            !old(self)@.paused && old(self)@.buffer.is_none() ==> {
                &&& final(self)@ == old(self)@
                &&& final(output)@ == old(output)@
                &&& written == 0
            },
            !old(self)@.paused && old(self)@.buffer.is_some() ==> {
                let before = old(self)@.buffer.unwrap();
                let after = final(self)@.buffer.unwrap();
                let position = old(self)@.position as int;
                let requested = old(output)@.len() as int;
                let produced = after.fetch(position, requested);
                &&& final(self)@.buffer.is_some()
                &&& before.drained_to(after, position + requested)
                &&& final(self)@ == (StateModel { buffer: Some(after), ..old(self)@ }).advanced(
                    requested as nat,
                    after.short(position, requested),
                )
                &&& final(output)@ == crate::audio::state::front_filled(old(output)@, produced)
                &&& written == produced.len()
            },
    {
        self.player_state.write_samples(output)
    }
}

} // verus!
