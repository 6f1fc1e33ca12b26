//! The sound side of the capture session: the one audio format on offer, the
//! choice among the formats a client proposes, and the relay that stamps each
//! captured batch of samples on its way to the client.

use vstd::prelude::*;
use vstd::slice::slice_to_vec;

verus! {

/// Samples per second of the captured audio.
pub const SAMPLE_RATE: u32 = 48000;

/// Bits of one sample.
pub const BITS_PER_SAMPLE: u16 = 32;

/// Channels of the captured audio.
pub const CHANNELS: u16 = 1;

/// Format tag of uncompressed (PCM) audio.
pub const WAVE_FORMAT_PCM: u16 = 1;

/// Bytes per second of the captured audio.
pub const AVG_BYTES_PER_SEC: u32 = 192000;

/// Block alignment that the format on offer announces.
pub const BLOCK_ALIGN: u16 = 128;

/// What the timestamp advances by with each batch.
pub const TIMESTAMP_STEP: u32 = 100;

/// A request to the capture loop that concerns the sound.
#[derive(Debug, Clone, Copy, PartialEq, Eq, Structural)]
pub enum Job {
    /// Asks for audio to be captured.
    Start,
    /// Asks for the audio capture to end.
    Stop,
}

/// An audio format as server and client name it to each other.
#[derive(Debug, Clone, PartialEq, Eq)]
pub struct AudioFormat {
    /// The format tag.
    pub format: u16,
    pub n_channels: u16,
    pub n_samples_per_sec: u32,
    pub n_avg_bytes_per_sec: u32,
    pub n_block_align: u16,
    pub bits_per_sample: u16,
    /// Extra bytes that some formats carry.
    pub data: Option<Vec<u8>>,
}

/// What a client is told when it proposes its formats.
#[derive(Debug, Clone, Copy, PartialEq, Eq, Structural)]
pub struct StartDecision {
    /// The index, among the client's formats, of the format to use; 0 where
    /// none of them is on offer.
    pub reply: Option<u16>,
    /// The job to send to the capture loop, if audio is to be captured.
    pub job: Option<Job>,
}

/// One batch of samples as the capture session delivers it.
pub struct AudioSample<'a> {
    /// The batch is of the audio (and not, say, of the screen).
    pub of_audio: bool,
    /// The bytes of the batch's first buffer, where it has one.
    pub buffer: Option<&'a [u8]>,
}

/// A batch of samples on its way to the client.
#[derive(Debug, Clone, PartialEq, Eq)]
pub struct Wave {
    pub data: Vec<u8>,
    pub timestamp: u32,
}

/// The sound part of the protocol server's handler.
#[derive(Debug, Clone, Copy)]
pub struct SoundServer;

/// The stamping relay between the capture session's audio and the client.
#[derive(Debug)]
pub struct AudioCaptureDelegate {
    ts: u32,
}

impl AudioFormat {
    /// This is the one format on offer: 48 kHz, one channel, 32-bit PCM, with
    /// no extra bytes.
    pub open spec fn is_supported(&self) -> bool {
        &&& self.format == WAVE_FORMAT_PCM
        &&& self.n_channels == CHANNELS
        &&& self.n_samples_per_sec == SAMPLE_RATE
        &&& self.n_avg_bytes_per_sec == AVG_BYTES_PER_SEC
        &&& self.n_block_align == BLOCK_ALIGN
        &&& self.bits_per_sample == BITS_PER_SAMPLE
        &&& self.data is None
    }

    /// Whether this is the format on offer.
    pub fn supported(&self) -> (yes: bool)
        ensures
            yes == self.is_supported(),
    {
        self.format == WAVE_FORMAT_PCM && self.n_channels == CHANNELS && self.n_samples_per_sec
            == SAMPLE_RATE && self.n_avg_bytes_per_sec == AVG_BYTES_PER_SEC && self.n_block_align
            == BLOCK_ALIGN && self.bits_per_sample == BITS_PER_SAMPLE && self.data.is_none()
    }
}

/// The bytes a second of the format on offer follow from its rate, channels and
/// sample size.
pub proof fn avg_bytes_per_sec_is_derived()
    ensures
        AVG_BYTES_PER_SEC == SAMPLE_RATE * (CHANNELS * BITS_PER_SAMPLE) / 8,
{
}

/// `index` is the place of the first format on offer among `formats`.
pub open spec fn is_first_supported(formats: Seq<AudioFormat>, index: int) -> bool {
    &&& 0 <= index < formats.len()
    &&& formats[index].is_supported()
    &&& forall|earlier: int| 0 <= earlier < index ==> !(#[trigger] formats[earlier]).is_supported()
}

/// The index of the first format on offer among `formats`, where there is one
/// and its index fits 16 bits.
pub open spec fn spec_choose_format(formats: Seq<AudioFormat>) -> Option<u16> {
    if exists|index: int| is_first_supported(formats, index) && index <= u16::MAX {
        Some((choose|index: int| is_first_supported(formats, index) && index <= u16::MAX) as u16)
    } else {
        None
    }
}

/// What a client that proposes `formats` is told, and the job that follows.
pub open spec fn spec_start(formats: Seq<AudioFormat>) -> StartDecision {
    match spec_choose_format(formats) {
        Some(index) => StartDecision { reply: Some(index), job: Some(Job::Start) },
        None => StartDecision { reply: Some(0), job: None },
    }
}

/// There is at most one first format on offer.
pub proof fn first_supported_is_unique(formats: Seq<AudioFormat>, a: int, b: int)
    requires
        is_first_supported(formats, a),
        is_first_supported(formats, b),
    ensures
        a == b,
{
    if a < b {
        assert(!formats[a].is_supported());
    } else if b < a {
        assert(!formats[b].is_supported());
    }
}

/// A client that proposes nothing on offer is answered with index 0, and no job
/// goes to the capture loop.
pub proof fn unsupported_formats_start_nothing(formats: Seq<AudioFormat>)
    requires
        forall|index: int| 0 <= index < formats.len() ==> !(#[trigger] formats[index]).is_supported(),
    ensures
        spec_choose_format(formats) is None,
        spec_start(formats) == (StartDecision { reply: Some(0), job: None }),
{
}

impl SoundServer {
    /// The formats on offer: exactly one.
    pub fn get_formats(&self) -> (formats: Vec<AudioFormat>)
        ensures
            formats@.len() == 1,
            formats@[0].is_supported(),
    {
        let mut formats = Vec::new();
        formats.push(
            AudioFormat {
                format: WAVE_FORMAT_PCM,
                n_channels: CHANNELS,
                n_samples_per_sec: SAMPLE_RATE,
                n_avg_bytes_per_sec: AVG_BYTES_PER_SEC,
                n_block_align: BLOCK_ALIGN,
                bits_per_sample: BITS_PER_SAMPLE,
                data: None,
            },
        );
        formats
    }

    /// Picks, among the formats that a client proposes, the first one that is
    /// on offer, and returns its index.
    ///
    /// Returns `None` where none is on offer, and also where the first one on
    /// offer stands at an index beyond 16 bits.
    pub fn choose_format(&self, client_formats: &[AudioFormat]) -> (chosen: Option<u16>)
        ensures
            chosen == spec_choose_format(client_formats@),
            chosen matches Some(index) ==> is_first_supported(client_formats@, index as int),
            chosen is None ==> forall|index: int|
                0 <= index < client_formats@.len() && index <= u16::MAX ==> !(
                #[trigger] client_formats@[index]).is_supported(),
    {
        let mut n: usize = 0;
        while n < client_formats.len()
            invariant
                n <= client_formats@.len(),
                forall|earlier: int|
                    0 <= earlier < n ==> !(#[trigger] client_formats@[earlier]).is_supported(),
            decreases client_formats@.len() - n,
        {
            if client_formats[n].supported() {
                assert(is_first_supported(client_formats@, n as int));
                if n <= 0xFFFF {
                    proof {
                        let picked = choose|index: int|
                            is_first_supported(client_formats@, index) && index <= u16::MAX;
                        first_supported_is_unique(client_formats@, picked, n as int);
                    }
                    return Some(n as u16);
                } else {
                    proof {
                        assert forall|index: int|
                            is_first_supported(client_formats@, index) implies index > u16::MAX by {
                            first_supported_is_unique(client_formats@, index, n as int);
                        }
                    }
                    return None;
                }
            }
            n += 1;
        }
        None
    }

    /// Answers a client that proposes its formats, and says whether audio is to
    /// be captured.
    ///
    /// With a format on offer among them the answer is its index and the job is
    /// `Start`.  Otherwise the answer is index 0 and there is no job.
    pub fn start(&self, client_formats: &[AudioFormat]) -> (decision: StartDecision)
        ensures
            decision == spec_start(client_formats@),
            decision.job is Some <==> spec_choose_format(client_formats@) is Some,
    {
        match self.choose_format(client_formats) {
            Some(index) => StartDecision { reply: Some(index), job: Some(Job::Start) },
            None => StartDecision { reply: Some(0), job: None },
        }
    }

    /// The job that ends the audio capture.
    pub fn stop(&self) -> (job: Job)
        ensures
            job == Job::Stop,
    {
        Job::Stop
    }
}

/// The timestamp after a batch stamped `timestamp`: one step later, starting
/// over from the low end past the largest 32-bit value.
pub open spec fn next_timestamp(timestamp: u32) -> u32 {
    ((timestamp + TIMESTAMP_STEP) % 0x1_0000_0000) as u32
}

/// A batch is relayed when it is of the audio and has a buffer.
pub open spec fn is_batch(sample: AudioSample) -> bool {
    sample.of_audio && sample.buffer is Some
}

impl AudioCaptureDelegate {
    /// The timestamp that the next batch gets.
    pub closed spec fn timestamp(&self) -> u32 {
        self.ts
    }

    /// A relay whose first batch is stamped 0.
    pub fn new() -> (delegate: Self)
        ensures
            delegate.timestamp() == 0,
    {
        Self { ts: 0 }
    }

    /// Takes one batch of samples from the capture session.
    ///
    /// A batch of the audio that has a buffer advances the timestamp by one
    /// step, whether or not a sender is registered; with a sender registered
    /// (`has_sender`) its bytes leave as a wave, stamped with the timestamp
    /// before the step.  Without one the batch is dropped.  Anything else is
    /// dropped and leaves the timestamp alone.
    pub fn did_output_sample_buffer(&mut self, sample: &AudioSample, has_sender: bool) -> (wave:
        Option<Wave>)
        ensures
            final(self).timestamp() == if is_batch(*sample) {
                next_timestamp(old(self).timestamp())
            } else {
                old(self).timestamp()
            },
            wave is Some <==> is_batch(*sample) && has_sender,
            wave matches Some(sent) ==> sent.timestamp == old(self).timestamp() && sent.data@
                == sample.buffer->0@,
    {
        if !sample.of_audio {
            return None;
        }
        let data = match sample.buffer {
            Some(data) => data,
            None => {
                return None;
            },
        };
        let wave = if has_sender {
            Some(Wave { data: slice_to_vec(data), timestamp: self.ts })
        } else {
            None
        };
        self.ts = self.ts.wrapping_add(TIMESTAMP_STEP);
        wave
    }
}

/// Timestamps go up by the step from batch to batch, strictly, as long as they
/// stay within 32 bits.
pub proof fn timestamps_increase(timestamp: u32)
    requires
        timestamp + TIMESTAMP_STEP <= u32::MAX,
    ensures
        next_timestamp(timestamp) == timestamp + TIMESTAMP_STEP,
        next_timestamp(timestamp) > timestamp,
{
}

} // verus!
