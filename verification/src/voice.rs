//! The voice pipeline's decision logic: frame accumulation for the encoder,
//! sizing for the decoder, and the adaptive playback-rate controller that
//! smooths network jitter.
//!
//! Audio samples themselves are opaque to this layer: the frame buffer is
//! generic in the sample type, and playback speed is an exact rational, so
//! the embedding layer converts to its sample format at the boundary.

use vstd::prelude::*;
use vstd::slice::{slice_index_get, slice_subrange, slice_to_vec};

verus! {

/// Samples per channel in one codec frame (60 ms at 48 kHz).
pub const FRAME_SAMPLES_PER_CHANNEL: usize = 2880;

/// The fixed capture and playback sample rate.
pub const SAMPLE_RATE: u32 = 48_000;

// ---------------------------------------------------------------------------
// Capture-side frame accumulation
// ---------------------------------------------------------------------------

/// Accumulates captured samples and hands out exactly one codec frame at a
/// time. Generic in the sample type: the capture device produces the
/// samples, this buffer only counts and slices them.
pub struct FrameBuffer<T> {
    pub samples: Vec<T>,
    pub channels: u16,
}

impl<T: Copy> FrameBuffer<T> {
    /// One or two channels, as the platform's capture device provides.
    pub open spec fn wf(&self) -> bool {
        1 <= self.channels <= 2
    }

    /// Samples in one full frame across all channels.
    pub open spec fn frame_len_spec(&self) -> int {
        FRAME_SAMPLES_PER_CHANNEL * self.channels
    }

    pub fn new(channels: u16) -> (s: FrameBuffer<T>)
        requires
            1 <= channels <= 2,
        ensures
            s.wf(),
            s.channels == channels,
            s.samples@ == Seq::<T>::empty(),
    {
        FrameBuffer { samples: Vec::new(), channels }
    }

    pub fn frame_len(&self) -> (r: usize)
        requires
            self.wf(),
        ensures
            r == self.frame_len_spec(),
    {
        FRAME_SAMPLES_PER_CHANNEL * (self.channels as usize)
    }

    /// Appends one captured batch, in capture order.
    pub fn push_batch(&mut self, batch: &[T])
        requires
            old(self).samples@.len() + batch@.len() <= usize::MAX,
        ensures
            final(self).samples@ == old(self).samples@ + batch@,
            final(self).channels == old(self).channels,
    {
        let mut i: usize = 0;
        while i < batch.len()
            invariant
                i <= batch@.len(),
                self.samples@ == old(self).samples@ + batch@.take(i as int),
                self.channels == old(self).channels,
                old(self).samples@.len() + batch@.len() <= usize::MAX,
            decreases batch.len() - i,
        {
            let v = *slice_index_get(batch, i);
            self.samples.push(v);
            proof {
                assert(batch@.take(i + 1) =~= batch@.take(i as int).push(batch@[i as int]));
                assert(self.samples@ =~= old(self).samples@ + batch@.take(i + 1));
            }
            i += 1;
        }
        proof {
            assert(batch@.take(batch@.len() as int) =~= batch@);
        }
    }

    /// Whether at least one full frame is buffered.
    pub fn has_frame(&self) -> (r: bool)
        requires
            self.wf(),
        ensures
            r == (self.samples@.len() >= self.frame_len_spec()),
    {
        self.samples.len() >= self.frame_len()
    }

    /// Takes the oldest full frame out of the buffer, or nothing while less
    /// than one frame is buffered.
    pub fn pop_frame(&mut self) -> (r: Option<Vec<T>>)
        requires
            old(self).wf(),
        ensures
            final(self).wf(),
            final(self).channels == old(self).channels,
            old(self).samples@.len() >= old(self).frame_len_spec() ==> ({
                &&& r matches Some(frame)
                &&& frame@ == old(self).samples@.take(old(self).frame_len_spec())
                &&& final(self).samples@ == old(self).samples@.skip(old(self).frame_len_spec())
            }),
            old(self).samples@.len() < old(self).frame_len_spec() ==> r is None && *final(self)
                == *old(self),
    {
        let frame_len = self.frame_len();
        if self.samples.len() < frame_len {
            return None;
        }
        let frame = slice_to_vec(slice_subrange(self.samples.as_slice(), 0, frame_len));
        let rest = slice_to_vec(
            slice_subrange(self.samples.as_slice(), frame_len, self.samples.len()),
        );
        self.samples = rest;
        proof {
            assert(frame@ =~= old(self).samples@.take(old(self).frame_len_spec()));
            assert(self.samples@ =~= old(self).samples@.skip(old(self).frame_len_spec()));
        }
        Some(frame)
    }
}

// ---------------------------------------------------------------------------
// Decode sizing
// ---------------------------------------------------------------------------

/// How many samples one inbound voice frame decodes to, by its declared
/// channel count. A frame declaring any other channel count is not of this
/// protocol's codec configuration: it is discarded and the pipeline
/// continues with the next frame.
pub fn voice_frame_samples(channels: u16) -> (r: Option<usize>)
    ensures
        channels == 1 ==> (r matches Some(n) && n == FRAME_SAMPLES_PER_CHANNEL),
        channels == 2 ==> (r matches Some(n) && n == 2 * FRAME_SAMPLES_PER_CHANNEL),
        channels != 1 && channels != 2 ==> r is None,
{
    if channels == 1 {
        Some(FRAME_SAMPLES_PER_CHANNEL)
    } else if channels == 2 {
        Some(2 * FRAME_SAMPLES_PER_CHANNEL)
    } else {
        None
    }
}

// ---------------------------------------------------------------------------
// Jitter smoothing
// ---------------------------------------------------------------------------

/// What the playback sink should do this tick. The speed is the exact
/// rational `num / den`.
#[derive(Clone, Copy, Debug, PartialEq, Eq, Structural)]
pub enum JitterCommand {
    /// Starve rather than stutter: too little is queued to play on.
    Pause,
    /// Play at `num / den` times normal speed.
    Play { num: usize, den: usize },
}

/// The playback-rate controller, from the number of queued frames: one
/// frame or less pauses playback; two or three play slightly slowed (19/20)
/// to rebuild the buffer; a backlog of ten or more drains proportionally at
/// `queued / 10`; anything in between plays at normal speed.
pub fn bad_jitter_buffer(queued: usize) -> (r: JitterCommand)
    ensures
        queued <= 1 ==> r == JitterCommand::Pause,
        2 <= queued <= 3 ==> r == (JitterCommand::Play { num: 19, den: 20 }),
        4 <= queued <= 9 ==> r == (JitterCommand::Play { num: 1, den: 1 }),
        queued >= 10 ==> r == (JitterCommand::Play { num: queued, den: 10 }),
{
    if queued <= 1 {
        JitterCommand::Pause
    } else if queued <= 3 {
        JitterCommand::Play { num: 19, den: 20 }
    } else if queued >= 10 {
        JitterCommand::Play { num: queued, den: 10 }
    } else {
        JitterCommand::Play { num: 1, den: 1 }
    }
}

// ---------------------------------------------------------------------------
// Pipeline configuration
// ---------------------------------------------------------------------------

/// The capture configuration the microphone is opened with.
#[derive(Clone, Copy, Debug, PartialEq, Eq, Structural)]
pub struct MicrophoneConfig {
    pub channels: u16,
    pub sample_rate: u32,
}

impl Default for MicrophoneConfig {
    /// Mono capture at the pipeline's fixed sample rate.
    fn default() -> (r: MicrophoneConfig)
        ensures
            r.channels == 1,
            r.sample_rate == SAMPLE_RATE,
    {
        MicrophoneConfig { channels: 1, sample_rate: SAMPLE_RATE }
    }
}

/// One input configuration a capture device offers, as far as the selection
/// rule reads it: a channel count, a supported sample-rate range, and
/// whether it delivers the sample format the pipeline consumes.
#[derive(Clone, Copy, Debug, PartialEq, Eq, Structural)]
pub struct SupportedInputConfig {
    pub channels: u16,
    pub min_sample_rate: u32,
    pub max_sample_rate: u32,
    pub supported_format: bool,
}

/// Whether an offered configuration satisfies the wanted one.
pub open spec fn config_matches(c: SupportedInputConfig, want: MicrophoneConfig) -> bool {
    &&& c.supported_format
    &&& c.channels == want.channels
    &&& c.min_sample_rate <= want.sample_rate <= c.max_sample_rate
}

/// The microphone subsystem: holds the wanted capture configuration and
/// picks the device configuration to open, as the capture startup does.
#[derive(Clone, Copy, Debug)]
pub struct MicrophonePlugin {
    pub config: MicrophoneConfig,
}

impl MicrophonePlugin {
    pub fn new(config: MicrophoneConfig) -> (s: MicrophonePlugin)
        ensures
            s.config == config,
    {
        MicrophonePlugin { config }
    }

    /// The first offered configuration that matches the wanted one, if any;
    /// with none, microphone capture is disabled and the rest of the system
    /// runs on.
    pub fn select_input_config(&self, offered: &Vec<SupportedInputConfig>) -> (r: Option<usize>)
        ensures
            match r {
                Some(i) => {
                    &&& i < offered@.len()
                    &&& config_matches(offered@[i as int], self.config)
                    &&& forall|k: int| 0 <= k < i ==> !config_matches(offered@[k], self.config)
                },
                None => forall|k: int|
                    0 <= k < offered@.len() ==> !config_matches(offered@[k], self.config),
            },
    {
        let mut i: usize = 0;
        while i < offered.len()
            invariant
                i <= offered@.len(),
                forall|k: int| 0 <= k < i ==> !config_matches(offered@[k], self.config),
            decreases offered.len() - i,
        {
            let c = offered[i];
            if c.supported_format && c.channels == self.config.channels
                && c.min_sample_rate <= self.config.sample_rate
                && self.config.sample_rate <= c.max_sample_rate {
                return Some(i);
            }
            i += 1;
        }
        None
    }
}

/// The voice-chat subsystem: holds the encoder's channel count, which the
/// platform fixes when the pipeline starts (stereo where the platform
/// captures stereo, mono elsewhere).
#[derive(Clone, Copy, Debug)]
pub struct VoiceChatPlugin {
    pub channels: u16,
}

impl VoiceChatPlugin {
    pub fn new(channels: u16) -> (s: VoiceChatPlugin)
        requires
            1 <= channels <= 2,
        ensures
            s.channels == channels,
    {
        VoiceChatPlugin { channels }
    }

    /// Samples across all channels in one encoder frame.
    pub fn frame_samples(&self) -> (r: usize)
        requires
            1 <= self.channels <= 2,
        ensures
            r == FRAME_SAMPLES_PER_CHANNEL * self.channels,
    {
        FRAME_SAMPLES_PER_CHANNEL * (self.channels as usize)
    }
}

} // verus!
