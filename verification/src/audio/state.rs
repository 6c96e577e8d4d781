//! The playback state machine: the current stream buffer, the playhead and
//! the paused and finished flags, in units of interleaved samples.

use crate::audio::stream::AudioBuffer;
use crate::audio::stream::BufferModel;
use vstd::prelude::*;

verus! {

/// Mathematical model of a [`PlayerState`].
pub struct StateModel<T> {
    /// The loaded stream, if any.
    pub buffer: Option<BufferModel<T>>,
    /// The playhead: an index into the interleaved stream.
    pub position: nat,
    /// Whether playback is paused.
    pub paused: bool,
    /// Whether playback ran into the end of the stream.
    pub finished: bool,
    /// Output frames per second.
    pub sample_rate: nat,
    /// Samples per output frame.
    pub channel_count: nat,
    /// The sample that stands for silence.
    pub silence: T,
}

/// `position + advance`, held at the largest playhead the machine can hold.
pub open spec fn advance_position(position: nat, advance: nat) -> nat {
    if position + advance <= usize::MAX {
        position + advance
    } else {
        usize::MAX as nat
    }
}

impl<T> StateModel<T> {
    /// Whether the playhead stands at or past the advertised end of a loaded
    /// stream.
    pub open spec fn at_end(self) -> bool {
        match self.buffer {
            Some(buffer) => self.position >= buffer.total_len,
            None => false,
        }
    }

    /// The state after one period of `requested` samples was played from the
    /// loaded stream: the playhead moves on by the whole period, and a read
    /// that came back short pauses and finishes playback.
    pub open spec fn advanced(self, requested: nat, exhausted: bool) -> StateModel<T> {
        StateModel {
            position: advance_position(self.position, requested),
            paused: self.paused || exhausted,
            finished: self.finished || exhausted,
            ..self
        }
    }

    /// The state after one period of `requested` samples was asked for, where
    /// `after` is the stream once the read for the period was answered.
    /// While paused or with no stream loaded nothing changes; otherwise the
    /// period is played.
    pub open spec fn after_write(self, after: Option<BufferModel<T>>, requested: nat)
        -> StateModel<T> {
        if self.paused || self.buffer.is_none() || after.is_none() {
            self
        } else {
            (StateModel { buffer: after, ..self }).advanced(
                requested,
                after.unwrap().short(self.position as int, requested as int),
            )
        }
    }

    /// The state after the periods `periods` were asked for one after
    /// another, each given as the stream after its read and its length.
    pub open spec fn after_writes(self, periods: Seq<(Option<BufferModel<T>>, nat)>)
        -> StateModel<T>
        decreases periods.len(),
    {
        if periods.len() == 0 {
            self
        } else {
            self.after_writes(periods.drop_last()).after_write(
                periods.last().0,
                periods.last().1,
            )
        }
    }

    /// The state after the pause button was pressed: at the end of the stream
    /// the playhead goes back to the start; in any case the paused flag flips.
    pub open spec fn toggled(self) -> StateModel<T> {
        StateModel {
            position: if self.at_end() {
                0
            } else {
                self.position
            },
            paused: !self.paused,
            ..self
        }
    }
}

/// One period never moves the playhead back. While playing from a loaded
/// stream it moves the playhead on by its whole length, up to the largest
/// playhead the machine can hold; otherwise it leaves the playhead in place.
pub proof fn lemma_write_moves_on<T>(
    state: StateModel<T>,
    after: Option<BufferModel<T>>,
    requested: nat,
)
    requires
        state.position <= usize::MAX,
    ensures
        state.after_write(after, requested).position <= usize::MAX,
        state.after_write(after, requested).position >= state.position,
        !state.paused && state.buffer.is_some() && after.is_some() ==> state.after_write(
            after,
            requested,
        ).position == advance_position(state.position, requested),
        !state.paused && state.buffer.is_some() && after.is_some() && state.position + requested
            <= usize::MAX ==> state.after_write(after, requested).position == state.position
            + requested,
        state.paused || state.buffer.is_none() ==> state.after_write(after, requested) == state,
{
}

/// Over any sequence of periods the playhead stays one that the machine can
/// hold.
pub proof fn lemma_playhead_in_range<T>(
    state: StateModel<T>,
    periods: Seq<(Option<BufferModel<T>>, nat)>,
)
    requires
        state.position <= usize::MAX,
    ensures
        state.after_writes(periods).position <= usize::MAX,
    decreases periods.len(),
{
    if periods.len() > 0 {
        lemma_playhead_in_range(state, periods.drop_last());
        lemma_write_moves_on(
            state.after_writes(periods.drop_last()),
            periods.last().0,
            periods.last().1,
        );
    }
}

/// Over any sequence of periods with no seek, load or pause between them,
/// the playhead never goes back: after the first `j` periods it is no
/// earlier than after the first `i`, for every `i <= j`.
pub proof fn lemma_playhead_never_goes_back<T>(
    state: StateModel<T>,
    periods: Seq<(Option<BufferModel<T>>, nat)>,
    i: int,
    j: int,
)
    requires
        state.position <= usize::MAX,
        0 <= i <= j <= periods.len(),
    ensures
        state.after_writes(periods.take(i)).position <= state.after_writes(
            periods.take(j),
        ).position,
    decreases j - i,
{
    if i < j {
        lemma_playhead_never_goes_back(state, periods, i, j - 1);
        let longer = periods.take(j);
        assert(longer.drop_last() =~= periods.take(j - 1));
        lemma_playhead_in_range(state, periods.take(j - 1));
        lemma_write_moves_on(
            state.after_writes(periods.take(j - 1)),
            longer.last().0,
            longer.last().1,
        );
    }
}

/// What a period of `requested` samples holds after `produced` was copied to
/// its front: the first samples of `produced`, as many as fit, and behind
/// them what `before` held there.
pub open spec fn front_filled<T>(before: Seq<T>, produced: Seq<T>) -> Seq<T> {
    if produced.len() <= before.len() {
        produced + before.subrange(produced.len() as int, before.len() as int)
    } else {
        produced.subrange(0, before.len() as int)
    }
}

/// Overwrites every sample of `output` with `value`.
pub fn fill<T: Copy>(output: &mut [T], value: T)
    ensures
        final(output)@ == Seq::new(old(output)@.len(), |i: int| value),
{
    let n: usize = output.len();
    let mut i: usize = 0;
    while i < n
        invariant
            n == output@.len(),
            n == old(output)@.len(),
            i <= n,
            forall|j: int| 0 <= j < i ==> output@[j] == value,
        decreases n - i,
    {
        output[i] = value;
        i += 1;
    }
    assert(output@ =~= Seq::new(old(output)@.len(), |i: int| value));
}

/// Copies `produced` to the front of `output`, as far as it fits, and leaves
/// the rest of `output` as it was. Returns the number of samples copied.
pub fn copy_front<T: Copy>(produced: &Vec<T>, output: &mut [T]) -> (written: usize)
    ensures
        final(output)@ == front_filled(old(output)@, produced@),
        written == if produced@.len() <= old(output)@.len() {
            produced@.len()
        } else {
            old(output)@.len()
        },
{
    let n: usize = if produced.len() <= output.len() {
        produced.len()
    } else {
        output.len()
    };
    let mut i: usize = 0;
    while i < n
        invariant
            output@.len() == old(output)@.len(),
            n <= output@.len(),
            n <= produced@.len(),
            i <= n,
            forall|j: int| 0 <= j < i ==> output@[j] == produced@[j],
            forall|j: int| i <= j < output@.len() ==> output@[j] == old(output)@[j],
        decreases n - i,
    {
        output[i] = produced[i];
        i += 1;
    }
    assert(output@ =~= front_filled(old(output)@, produced@));
    n
}

/// The playback state that the realtime callback and the transport share.
#[verifier::reject_recursive_types(T)]
pub struct PlayerState<T> {
    audio_buffer: Option<AudioBuffer<T>>,
    position: usize,
    paused: bool,
    finished: bool,
    sample_rate: u32,
    channel_count: usize,
    silence: T,
}

impl<T> View for PlayerState<T> {
    type V = StateModel<T>;

    closed spec fn view(&self) -> StateModel<T> {
        StateModel {
            buffer: match self.audio_buffer {
                Some(buffer) => Some(buffer@),
                None => None,
            },
            position: self.position as nat,
            paused: self.paused,
            finished: self.finished,
            sample_rate: self.sample_rate as nat,
            channel_count: self.channel_count as nat,
            silence: self.silence,
        }
    }
}

impl<T: Copy> PlayerState<T> {
    /// The output format is not degenerate: it has a rate and channels.
    pub closed spec fn wf(&self) -> bool {
        &&& self.sample_rate > 0
        &&& self.channel_count > 0
    }

    /// A stopped, paused state for the given output format.
    pub fn new(channel_count: u32, sample_rate: u32, silence: T) -> (state: Self)
        requires
            channel_count > 0,
            sample_rate > 0,
        ensures
            state.wf(),
            state@ == (StateModel::<T> {
                buffer: None,
                position: 0,
                paused: true,
                finished: false,
                sample_rate: sample_rate as nat,
                channel_count: channel_count as nat,
                silence,
            }),
    {
        PlayerState {
            audio_buffer: None,
            position: 0,
            paused: true,
            finished: false,
            sample_rate,
            channel_count: channel_count as usize,
            silence,
        }
    }

    /// The playhead, as an index into the interleaved stream.
    pub fn position(&self) -> (position: usize)
        ensures
            position == self@.position,
    {
        self.position
    }

    /// Whether playback is paused.
    pub fn is_paused(&self) -> (paused: bool)
        ensures
            paused == self@.paused,
    {
        self.paused
    }

    /// Whether playback ran into the end of the stream.
    pub fn finished(&self) -> (finished: bool)
        ensures
            finished == self@.finished,
    {
        self.finished
    }

    /// Output frames per second.
    pub fn sample_rate(&self) -> (rate: u32)
        ensures
            rate == self@.sample_rate,
            self.wf() ==> rate > 0,
    {
        self.sample_rate
    }

    /// Samples per output frame.
    pub fn channel_count(&self) -> (count: usize)
        ensures
            count == self@.channel_count,
            self.wf() ==> count > 0,
    {
        self.channel_count
    }

    /// The advertised length of the loaded stream in samples, if one is
    /// loaded.
    pub fn total_len(&self) -> (len: Option<usize>)
        ensures
            match self@.buffer {
                Some(buffer) => len == Some(buffer.total_len as usize) && buffer.total_len
                    <= usize::MAX,
                None => len.is_none(),
            },
    {
        match &self.audio_buffer {
            Some(buffer) => Some(buffer.len()),
            None => None,
        }
    }

    /// Accounts for one period that was read from the loaded stream:
    /// `samples` go to the front of `output`, the playhead moves on by the
    /// length of `output`, and a read that came back short pauses and
    /// finishes playback. Returns the number of samples written.
    pub fn deliver(&mut self, samples: &Vec<T>, exhausted: bool, output: &mut [T]) -> (written:
        usize)
        requires
            old(self).wf(),
        ensures
            final(self).wf(),
            final(self)@ == old(self)@.advanced(old(output)@.len(), exhausted),
            final(output)@ == front_filled(old(output)@, samples@),
            written == if samples@.len() <= old(output)@.len() {
                samples@.len()
            } else {
                old(output)@.len()
            },
    {
        let requested: usize = output.len();
        let written = copy_front(samples, output);
        self.position = self.position.saturating_add(requested);
        if exhausted {
            self.paused = true;
            self.finished = true;
        }
        written
    }

    /// Fills one hardware period.
    ///
    /// While paused, the whole of `output` becomes silence and nothing else
    /// changes. With no stream loaded, nothing happens at all. Otherwise the
    /// period is read from the stream at the playhead, which may wait for the
    /// producer; the samples that came back go to the front of `output`, the
    /// rest of `output` keeps what it held, the playhead moves on by the
    /// whole period, and a short read pauses and finishes playback. Returns
    /// the number of samples written.
    pub fn write_samples(&mut self, output: &mut [T]) -> (written: usize)
        requires
            old(self).wf(),
        ensures
            final(self).wf(),
            final(self)@ == old(self)@.after_write(final(self)@.buffer, old(output)@.len()),
            final(self)@.position >= old(self)@.position,
            old(self)@.paused ==> {
                &&& final(self)@ == old(self)@
                &&& final(output)@ == Seq::new(old(output)@.len(), |i: int| old(self)@.silence)
                &&& written == old(output)@.len()
            },
            !old(self)@.paused && old(self)@.buffer.is_none() ==> {
                &&& final(self)@ == old(self)@
                &&& final(output)@ == old(output)@
                &&& written == 0
            },
            !old(self)@.paused && old(self)@.buffer.is_some() ==> {
                let before = old(self)@.buffer.unwrap();
                let after = final(self)@.buffer.unwrap();
                let position = old(self)@.position as int;
                let requested = old(output)@.len() as int;
                let produced = after.fetch(position, requested);
                &&& final(self)@.buffer.is_some()
                &&& before.drained_to(after, position + requested)
                &&& final(self)@ == (StateModel { buffer: Some(after), ..old(self)@ }).advanced(
                    requested as nat,
                    after.short(position, requested),
                )
                &&& final(output)@ == front_filled(old(output)@, produced)
                &&& written == produced.len()
            },
    {
        if self.paused {
            fill(output, self.silence);
            return output.len();
        }
        let requested: usize = output.len();
        match self.audio_buffer.take() {
            None => 0,
            Some(buffer) => {
                let mut buffer = buffer;
                let (samples, exhausted) = buffer.read_samples(self.position, requested);
                self.audio_buffer = Some(buffer);
                self.deliver(&samples, exhausted, output)
            },
        }
    }

    /// Replaces the stream with `buffer` and puts the playhead at its start.
    /// The paused flag stays as it is.
    pub fn load(&mut self, buffer: AudioBuffer<T>)
        requires
            old(self).wf(),
        ensures
            final(self).wf(),
            final(self)@ == (StateModel {
                buffer: Some(buffer@),
                position: 0,
                finished: false,
                ..old(self)@
            }),
    {
        self.position = 0;
        self.finished = false;
        self.audio_buffer = Some(buffer);
    }

    /// Unpauses, then loads `buffer`.
    pub fn play(&mut self, buffer: AudioBuffer<T>)
        requires
            old(self).wf(),
        ensures
            final(self).wf(),
            final(self)@ == (StateModel {
                buffer: Some(buffer@),
                position: 0,
                paused: false,
                finished: false,
                ..old(self)@
            }),
    {
        self.set_paused(false);
        self.load(buffer);
    }

    /// Pauses and drops the stream, which tells its producer to stop.
    pub fn stop(&mut self)
        requires
            old(self).wf(),
        ensures
            final(self).wf(),
            final(self)@ == (StateModel { buffer: None, paused: true, ..old(self)@ }),
    {
        self.set_paused(true);
        self.audio_buffer = None;
    }

    /// Flips the paused flag. With the playhead at or past the advertised
    /// end of the stream, the playhead first goes back to the start.
    pub fn pause(&mut self)
        requires
            old(self).wf(),
        ensures
            final(self).wf(),
            final(self)@ == old(self)@.toggled(),
    {
        let at_end = match &self.audio_buffer {
            Some(buffer) => self.position >= buffer.len(),
            None => false,
        };
        if at_end {
            self.position = 0;
        }
        self.paused = !self.paused;
    }

    /// Sets the paused flag and nothing else.
    pub fn set_paused(&mut self, state: bool)
        requires
            old(self).wf(),
        ensures
            final(self).wf(),
            final(self)@ == (StateModel { paused: state, ..old(self)@ }),
    {
        self.paused = state;
    }

    /// Puts the playhead at `position`, which may lie past the end of the
    /// stream.
    pub fn seek(&mut self, position: usize)
        requires
            old(self).wf(),
        ensures
            final(self).wf(),
            final(self)@ == (StateModel { position: position as nat, ..old(self)@ }),
    {
        self.position = position;
    }
}

} // verus!
