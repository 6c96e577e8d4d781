//! Fully decoded audio: one buffer of samples per channel, all of the same
//! length, and the rate they were recorded at.

use vstd::prelude::*;

verus! {

/// Why a piece of decoded audio was turned down.
#[derive(Debug, Clone, Copy, PartialEq, Eq, Structural)]
pub enum AudioError {
    /// The audio has no channel at all.
    NoChannels,
    /// The channels differ in length, or a packet ends inside a frame.
    UnevenChannels,
    /// A packet's sample rate or channel count differs from the audio it
    /// continues.
    FormatMismatch,
}

/// Mathematical model of an [`Audio`].
pub struct AudioModel<T> {
    /// The samples of each channel.
    pub channels: Seq<Seq<T>>,
    /// Source frames per second.
    pub sample_rate: nat,
}

impl<T> AudioModel<T> {
    /// The number of frames: the common length of the channels.
    pub open spec fn frames(self) -> nat
        recommends
            self.channels.len() > 0,
    {
        self.channels[0].len()
    }

    /// There is a channel, and all channels are equally long.
    pub open spec fn wf(self) -> bool {
        &&& self.channels.len() > 0
        &&& forall|c: int| 0 <= c < self.channels.len() ==> #[trigger] self.channels[c].len()
            == self.frames()
    }

    /// The audio with the frames of `packet` behind it, where `packet` holds
    /// whole frames, each frame's samples side by side.
    pub open spec fn extended(self, packet: Seq<T>) -> AudioModel<T> {
        AudioModel {
            channels: Seq::new(
                self.channels.len(),
                |c: int| self.channels[c] + channel_of(packet, self.channels.len(), c as nat),
            ),
            sample_rate: self.sample_rate,
        }
    }
}

/// The samples of channel `channel` in `packet`, which holds frames of
/// `channel_count` samples side by side.
pub open spec fn channel_of<T>(packet: Seq<T>, channel_count: nat, channel: nat) -> Seq<T>
    recommends
        channel_count > 0,
        channel < channel_count,
{
    Seq::new(
        packet.len() / channel_count,
        |frame: int| packet[frame * channel_count + channel],
    )
}

/// The per-channel view of nested sample buffers.
pub open spec fn channels_view<T>(samples: Seq<Vec<T>>) -> Seq<Seq<T>> {
    Seq::new(samples.len(), |c: int| samples[c]@)
}

/// In a packet of whole frames, every sample of every frame lies inside the
/// packet.
pub proof fn lemma_frame_index(len: int, channel_count: int, frame: int, channel: int)
    requires
        channel_count > 0,
        0 <= len,
        len % channel_count == 0,
        0 <= frame < len / channel_count,
        0 <= channel < channel_count,
    ensures
        0 <= frame * channel_count,
        frame * channel_count + channel < len,
{
    assert(len == (len / channel_count) * channel_count) by (nonlinear_arith)
        requires
            channel_count > 0,
            len % channel_count == 0,
    ;
    assert((frame + 1) * channel_count <= (len / channel_count) * channel_count)
        by (nonlinear_arith)
        requires
            frame + 1 <= len / channel_count,
            channel_count > 0,
    ;
    assert((frame + 1) * channel_count == frame * channel_count + channel_count)
        by (nonlinear_arith);
    assert(0 <= frame * channel_count) by (nonlinear_arith)
        requires
            0 <= frame,
            0 < channel_count,
    ;
}

/// Decoded audio: per-channel sample buffers of equal length and the source
/// sample rate.
pub struct Audio<T> {
    samples: Vec<Vec<T>>,
    sample_rate: u32,
    channel_count: usize,
}

impl<T> View for Audio<T> {
    type V = AudioModel<T>;

    closed spec fn view(&self) -> AudioModel<T> {
        AudioModel { channels: channels_view(self.samples@), sample_rate: self.sample_rate as nat }
    }
}

impl<T: Copy> Audio<T> {
    /// The channel count matches the buffers, and the model is well formed.
    pub closed spec fn wf(&self) -> bool {
        &&& self.channel_count == self.samples@.len()
        &&& self@.wf()
    }

    /// Well-formed audio has a channel, and its channels are equally long.
    pub proof fn lemma_wf(&self)
        requires
            self.wf(),
        ensures
            self@.wf(),
    {
    }

    /// Audio made of the given channels. Fails with `NoChannels` exactly when
    /// there is none, and otherwise with `UnevenChannels` exactly when two of
    /// them differ in length.
    pub fn from_channels(samples: Vec<Vec<T>>, sample_rate: u32) -> (audio: Result<
        Audio<T>,
        AudioError,
    >)
        ensures
            match audio {
                Ok(audio) => {
                    &&& audio.wf()
                    &&& audio@.channels == channels_view(samples@)
                    &&& audio@.sample_rate == sample_rate
                },
                Err(AudioError::NoChannels) => samples@.len() == 0,
                Err(AudioError::UnevenChannels) => {
                    &&& samples@.len() > 0
                    &&& exists|c: int|
                        0 <= c < samples@.len() && #[trigger] samples@[c]@.len()
                            != samples@[0]@.len()
                },
                Err(AudioError::FormatMismatch) => false,
            },
    {
        let channel_count: usize = samples.len();
        if channel_count == 0 {
            return Err(AudioError::NoChannels);
        }
        let frames: usize = samples[0].len();
        let mut c: usize = 1;
        while c < channel_count
            invariant
                channel_count == samples@.len(),
                frames == samples@[0]@.len(),
                1 <= c <= channel_count,
                forall|k: int| 0 <= k < c ==> #[trigger] samples@[k]@.len() == frames,
            decreases channel_count - c,
        {
            if samples[c].len() != frames {
                return Err(AudioError::UnevenChannels);
            }
            c += 1;
        }
        let audio = Audio { samples, sample_rate, channel_count };
        assert(audio@.wf()) by {
            assert forall|k: int| 0 <= k < audio@.channels.len() implies #[trigger] audio@.channels[k].len()
                == audio@.frames() by {
                assert(audio@.channels[k] == samples@[k]@);
            }
        }
        Ok(audio)
    }

    /// Source frames per second.
    pub fn sample_rate(&self) -> (rate: u32)
        ensures
            rate == self@.sample_rate,
    {
        self.sample_rate
    }

    /// The number of channels, which is never zero.
    pub fn channel_count(&self) -> (count: usize)
        requires
            self.wf(),
        ensures
            count == self@.channels.len(),
            count > 0,
    {
        self.channel_count
    }

    /// Audio of `channel_count` channels without any frame yet. Fails with
    /// `NoChannels` exactly when `channel_count` is zero.
    pub fn empty(channel_count: usize, sample_rate: u32) -> (audio: Result<Audio<T>, AudioError>)
        ensures
            match audio {
                Ok(audio) => {
                    &&& audio.wf()
                    &&& audio@.channels == Seq::new(
                        channel_count as nat,
                        |c: int| Seq::<T>::empty(),
                    )
                    &&& audio@.sample_rate == sample_rate
                },
                Err(error) => error == AudioError::NoChannels && channel_count == 0,
            },
    {
        if channel_count == 0 {
            return Err(AudioError::NoChannels);
        }
        let mut samples: Vec<Vec<T>> = Vec::new();
        let mut c: usize = 0;
        while c < channel_count
            invariant
                c <= channel_count,
                samples@.len() == c,
                forall|k: int| 0 <= k < c ==> #[trigger] samples@[k]@ == Seq::<T>::empty(),
            decreases channel_count - c,
        {
            samples.push(Vec::new());
            c += 1;
        }
        let audio = Audio { samples, sample_rate, channel_count };
        assert(audio@.channels =~= Seq::new(channel_count as nat, |c: int| Seq::<T>::empty()));
        Ok(audio)
    }

    /// Appends the frames of `packet`, decoded at `sample_rate` with
    /// `channel_count` samples per frame, side by side. Fails with
    /// `FormatMismatch` exactly when the rate or the channel count differs
    /// from this audio's, and otherwise with `UnevenChannels` exactly when
    /// the packet ends inside a frame. On failure nothing changes.
    pub fn push_packet(&mut self, channel_count: usize, sample_rate: u32, packet: &[T]) -> (pushed:
        Result<(), AudioError>)
        requires
            old(self).wf(),
        ensures
            final(self).wf(),
            match pushed {
                Ok(()) => {
                    &&& channel_count == old(self)@.channels.len()
                    &&& sample_rate == old(self)@.sample_rate
                    &&& packet@.len() % (channel_count as nat) == 0
                    &&& final(self)@ == old(self)@.extended(packet@)
                },
                Err(AudioError::FormatMismatch) => {
                    &&& channel_count != old(self)@.channels.len() || sample_rate != old(
                        self,
                    )@.sample_rate
                    &&& final(self)@ == old(self)@
                },
                Err(AudioError::UnevenChannels) => {
                    &&& channel_count == old(self)@.channels.len()
                    &&& sample_rate == old(self)@.sample_rate
                    &&& packet@.len() % (channel_count as nat) != 0
                    &&& final(self)@ == old(self)@
                },
                Err(AudioError::NoChannels) => false,
            },
    {
        if sample_rate != self.sample_rate || channel_count != self.channel_count {
            return Err(AudioError::FormatMismatch);
        }
        if packet.len() % channel_count != 0 {
            return Err(AudioError::UnevenChannels);
        }
        let frames: usize = packet.len() / channel_count;
        let ghost before = self@;
        let mut frame: usize = 0;
        while frame < frames
            invariant
                self.channel_count == channel_count,
                self.sample_rate == sample_rate,
                channel_count > 0,
                channel_count == self.samples@.len(),
                channel_count == before.channels.len(),
                before.wf(),
                frames == packet@.len() / (channel_count as nat),
                packet@.len() % (channel_count as nat) == 0,
                packet@.len() <= usize::MAX,
                frame <= frames,
                forall|c: int|
                    0 <= c < channel_count ==> #[trigger] self.samples@[c]@ == before.channels[c]
                        + channel_of(packet@, channel_count as nat, c as nat).subrange(
                        0,
                        frame as int,
                    ),
            decreases frames - frame,
        {
            let mut channel: usize = 0;
            while channel < channel_count
                invariant
                    self.channel_count == channel_count,
                    self.sample_rate == sample_rate,
                    channel_count > 0,
                    channel_count == self.samples@.len(),
                    channel_count == before.channels.len(),
                    frames == packet@.len() / (channel_count as nat),
                    packet@.len() % (channel_count as nat) == 0,
                    packet@.len() <= usize::MAX,
                    frame < frames,
                    channel <= channel_count,
                    forall|c: int|
                        0 <= c < channel ==> #[trigger] self.samples@[c]@ == before.channels[c]
                            + channel_of(packet@, channel_count as nat, c as nat).subrange(
                            0,
                            frame + 1,
                        ),
                    forall|c: int|
                        channel <= c < channel_count ==> #[trigger] self.samples@[c]@
                            == before.channels[c] + channel_of(
                            packet@,
                            channel_count as nat,
                            c as nat,
                        ).subrange(0, frame as int),
                decreases channel_count - channel,
            {
                proof {
                    lemma_frame_index(
                        packet@.len() as int,
                        channel_count as int,
                        frame as int,
                        channel as int,
                    );
                }
                let sample: T = packet[frame * channel_count + channel];
                let ghost whole = channel_of(packet@, channel_count as nat, channel as nat);
                let ghost old_samples = self.samples@;
                self.samples[channel].push(sample);
                proof {
                    assert(whole.subrange(0, frame + 1) =~= whole.subrange(0, frame as int).push(
                        sample,
                    ));
                    assert(self.samples@[channel as int]@ =~= before.channels[channel as int]
                        + whole.subrange(0, frame + 1));
                }
                channel += 1;
            }
            frame += 1;
        }
        proof {
            assert forall|c: int| 0 <= c < channel_count implies #[trigger] self@.channels[c]
                == before.extended(packet@).channels[c] by {
                let whole = channel_of(packet@, channel_count as nat, c as nat);
                assert(whole.subrange(0, frames as int) =~= whole);
                assert(self@.channels[c] == self.samples@[c]@);
            }
            assert(self@.channels =~= before.extended(packet@).channels);
            assert forall|c: int| 0 <= c < self@.channels.len() implies #[trigger] self@.channels[c].len()
                == self@.frames() by {
                assert(before.channels[c].len() == before.frames());
                assert(before.channels[0].len() == before.frames());
            }
        }
        Ok(())
    }

    /// The number of frames.
    pub fn frames(&self) -> (frames: usize)
        requires
            self.wf(),
        ensures
            frames == self@.frames(),
    {
        self.samples[0].len()
    }

    /// The sample of `channel` in frame `frame`.
    pub fn sample(&self, channel: usize, frame: usize) -> (sample: T)
        requires
            self.wf(),
            channel < self@.channels.len(),
            frame < self@.frames(),
        ensures
            sample == self@.channels[channel as int][frame as int],
    {
        proof {
            assert(self@.channels[channel as int].len() == self@.frames());
        }
        self.samples[channel][frame]
    }
}

} // verus!
