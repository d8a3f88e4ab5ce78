//! The pull sample source: what the audio output draws its samples from.
//!
//! The output pulls one sample at a time, at its own pace. The source hands
//! out the samples of the batch that it holds; when that is used up it takes
//! what the pipeline's queue has, without waiting, and hands out silence
//! when the queue has nothing. A stream from which nothing has come for too
//! long is declared finished.

use vstd::prelude::*;
use crate::clock::elapsed_ms;
use crate::player::AudioPlayer;

verus! {

/// Initial buffering is complete once more than this many samples have been
/// received: two seconds at 44.1 kHz.
pub const MIN_BUFFERING_SAMPLES: usize = 88_200;

/// The first stage of buffering ends once more than this many samples have
/// been received: one second at 44.1 kHz.
pub const EARLY_BUFFERING_SAMPLES: usize = 44_100;

/// The longest silence before initial buffering is complete.
pub const TIMEOUT_INITIAL_BUFFERING_MS: u64 = 12_000;

/// The longest silence before initial buffering is complete, for a track
/// that comes from the local history.
pub const TIMEOUT_HISTORY_TRACK_MS: u64 = 15_000;

/// The longest silence once initial buffering is complete.
pub const TIMEOUT_MID_PLAYBACK_MS: u64 = 5_000;

/// The number of samples in a batch for the analyzer: one decoded frame.
pub const ANALYZER_BATCH_SAMPLES: usize = 1152;

/// The network quality factor that leaves the timeouts as they are, in
/// thousandths.
pub const NETWORK_QUALITY_GOOD: u32 = 1000;

/// The sample rate assumed of every stream.
pub const SAMPLE_RATE_HZ: u32 = 44_100;

/// The number of channels assumed of every stream.
pub const CHANNELS: u16 = 2;

/// The timeout before the network quality is taken into account.
pub open spec fn base_timeout_ms(buffering_complete: bool, is_history_track: bool) -> u64 {
    if buffering_complete {
        5_000
    } else if is_history_track {
        15_000
    } else {
        12_000
    }
}

/// The silence that is put up with: the base timeout times the network
/// quality factor, which is given in thousandths.
pub open spec fn stuck_threshold_ms(
    buffering_complete: bool,
    is_history_track: bool,
    quality_permille: u32,
) -> nat {
    (base_timeout_ms(buffering_complete, is_history_track) * quality_permille / 1000) as nat
}

/// True if the time since the last sample exceeds the threshold.
pub open spec fn is_stuck(
    last_sample_ms: u64,
    now: u64,
    buffering_complete: bool,
    is_history_track: bool,
    quality_permille: u32,
) -> bool {
    elapsed_ms(last_sample_ms, now) > stuck_threshold_ms(
        buffering_complete,
        is_history_track,
        quality_permille,
    )
}

/// The count of samples received after `more` have come in. The count
/// stops at the largest number there is.
pub open spec fn received_after(received: usize, more: nat) -> usize {
    if received + more > usize::MAX {
        usize::MAX
    } else {
        (received + more) as usize
    }
}

/// What a pull hands to the output and to the rest of the session.
#[derive(Debug)]
pub struct Pulled {
    /// The sample for the output; `None` ends the stream of samples.
    pub sample: Option<i16>,
    /// A full batch of played samples for the analyzer's playback queue.
    pub analyzer_batch: Option<Vec<i16>>,
    /// True if the finished flag is to be set because the stream is stuck.
    pub force_finished: bool,
}

/// The state of the pull sample source.
#[derive(Debug)]
pub struct StreamingSource {
    /// The batch that samples are handed out from.
    pub current_samples: Vec<i16>,
    /// The place in `current_samples` of the next sample to hand out.
    pub sample_index: usize,
    pub sample_rate: u32,
    pub channels: u16,
    /// True until the first second of audio has been received.
    pub buffering: bool,
    /// The number of samples received so far.
    pub samples_received: usize,
    /// The wall-clock reading at which samples were last received.
    pub last_sample_ms: u64,
    /// Whether played samples go to the analyzer.
    pub fft_enabled: bool,
    /// The played samples gathered for the analyzer's next batch.
    pub fft_buffer: Vec<i16>,
    pub is_history_track: bool,
    /// True once the first two seconds of audio have been received.
    pub initial_buffering_complete: bool,
    /// The network quality factor in thousandths: 1000 for a good network,
    /// more for a poor one.
    pub network_quality_permille: u32,
}

impl StreamingSource {
    /// The place in the batch is inside it or at its end, and the analyzer's
    /// buffer is short of a full batch.
    pub open spec fn wf(&self) -> bool {
        &&& self.sample_index <= self.current_samples@.len()
        &&& self.fft_buffer@.len() < ANALYZER_BATCH_SAMPLES
    }

    /// True if the batch at hand has a sample left.
    pub open spec fn has_sample(&self) -> bool {
        self.sample_index < self.current_samples@.len()
    }

    /// The threshold of silence that applies now.
    pub open spec fn threshold_ms(&self) -> nat {
        stuck_threshold_ms(
            self.initial_buffering_complete,
            self.is_history_track,
            self.network_quality_permille,
        )
    }

    /// True if nothing has come for longer than the threshold allows.
    pub open spec fn stuck_at(&self, now: u64) -> bool {
        is_stuck(
            self.last_sample_ms,
            now,
            self.initial_buffering_complete,
            self.is_history_track,
            self.network_quality_permille,
        )
    }

    /// The analyzer's buffer after `sample` has been played.
    pub open spec fn fft_buffer_after(&self, sample: i16) -> Seq<i16> {
        if !self.fft_enabled {
            self.fft_buffer@
        } else if self.fft_buffer@.len() + 1 >= ANALYZER_BATCH_SAMPLES {
            Seq::empty()
        } else {
            self.fft_buffer@.push(sample)
        }
    }

    /// The batch that goes to the analyzer when `sample` has been played.
    pub open spec fn batch_after(&self, sample: i16) -> Option<Seq<i16>> {
        if self.fft_enabled && self.fft_buffer@.len() + 1 >= ANALYZER_BATCH_SAMPLES {
            Some(self.fft_buffer@.push(sample))
        } else {
            None
        }
    }

    /// A source that has received nothing yet, as of `now_ms`.
    pub fn new(
        sample_rate: u32,
        channels: u16,
        fft_enabled: bool,
        is_history_track: bool,
        network_quality_permille: u32,
        now_ms: u64,
    ) -> (s: StreamingSource)
        ensures
            s.wf(),
            s.current_samples@.len() == 0,
            s.sample_index == 0,
            s.sample_rate == sample_rate,
            s.channels == channels,
            s.buffering,
            s.samples_received == 0,
            s.last_sample_ms == now_ms,
            s.fft_enabled == fft_enabled,
            s.fft_buffer@.len() == 0,
            s.is_history_track == is_history_track,
            !s.initial_buffering_complete,
            s.network_quality_permille == network_quality_permille,
    {
        StreamingSource {
            current_samples: Vec::new(),
            sample_index: 0,
            sample_rate,
            channels,
            buffering: true,
            samples_received: 0,
            last_sample_ms: now_ms,
            fft_enabled,
            fft_buffer: Vec::new(),
            is_history_track,
            initial_buffering_complete: false,
            network_quality_permille,
        }
    }

    /// Whether the batch at hand has a sample left. If not, the caller
    /// looks into the queue and calls `poll`.
    pub fn has_buffered(&self) -> (b: bool)
        ensures
            b == self.has_sample(),
    {
        self.sample_index < self.current_samples.len()
    }

    /// Hands out the next sample of the batch at hand, and gathers it for
    /// the analyzer if there is one.
    pub fn next_buffered(&mut self) -> (out: Pulled)
        requires
            old(self).wf(),
            old(self).has_sample(),
        ensures
            final(self).wf(),
            out.sample == Some(old(self).current_samples@[old(self).sample_index as int]),
            !out.force_finished,
            match out.analyzer_batch {
                Some(batch) => old(self).batch_after(out.sample->0) == Some(batch@),
                None => old(self).batch_after(out.sample->0) is None,
            },
            final(self).fft_buffer@ == old(self).fft_buffer_after(out.sample->0),
            final(self).sample_index == old(self).sample_index + 1,
            final(self).current_samples == old(self).current_samples,
            final(self).sample_rate == old(self).sample_rate,
            final(self).channels == old(self).channels,
            final(self).buffering == old(self).buffering,
            final(self).samples_received == old(self).samples_received,
            final(self).last_sample_ms == old(self).last_sample_ms,
            final(self).fft_enabled == old(self).fft_enabled,
            final(self).is_history_track == old(self).is_history_track,
            final(self).initial_buffering_complete == old(self).initial_buffering_complete,
            final(self).network_quality_permille == old(self).network_quality_permille,
    {
        assert(self.sample_index < self.current_samples.len());
        let sample = self.current_samples[self.sample_index];
        self.sample_index = self.sample_index + 1;
        let mut analyzer_batch: Option<Vec<i16>> = None;
        if self.fft_enabled {
            self.fft_buffer.push(sample);
            if self.fft_buffer.len() >= ANALYZER_BATCH_SAMPLES {
                let mut batch: Vec<i16> = Vec::new();
                batch.append(&mut self.fft_buffer);
                analyzer_batch = Some(batch);
            }
        }
        Pulled { sample: Some(sample), analyzer_batch, force_finished: false }
    }

    /// Answers a pull when the batch at hand is used up. `received` is what
    /// the queue had, `finished` the finished flag as read now.
    ///
    /// With a batch from the queue, the source counts it in and hands out
    /// its first sample; an empty batch ends the stream of samples. With
    /// nothing from the queue, the stream of samples ends if the pipeline
    /// has finished and initial buffering is complete; it ends, with the
    /// finished flag to be set, if nothing has come for longer than the
    /// threshold; and else a sample of silence is handed out.
    pub fn poll(&mut self, received: Option<Vec<i16>>, now_ms: u64, finished: bool) -> (out: Pulled)
        requires
            old(self).wf(),
            !old(self).has_sample(),
        ensures
            final(self).wf(),
            final(self).sample_rate == old(self).sample_rate,
            final(self).channels == old(self).channels,
            final(self).fft_enabled == old(self).fft_enabled,
            final(self).is_history_track == old(self).is_history_track,
            final(self).network_quality_permille == old(self).network_quality_permille,
            match received {
                Some(samples) => {
                    &&& final(self).samples_received == received_after(
                        old(self).samples_received,
                        samples@.len(),
                    )
                    &&& final(self).last_sample_ms == now_ms
                    &&& final(self).buffering == (old(self).buffering
                        && final(self).samples_received <= EARLY_BUFFERING_SAMPLES)
                    &&& final(self).initial_buffering_complete == (old(self).initial_buffering_complete
                        || final(self).samples_received > MIN_BUFFERING_SAMPLES)
                    &&& final(self).current_samples == samples
                    &&& !out.force_finished
                    &&& if samples@.len() > 0 {
                        &&& out.sample == Some(samples@[0])
                        &&& final(self).sample_index == 1
                        &&& final(self).fft_buffer@ == old(self).fft_buffer_after(samples@[0])
                        &&& match out.analyzer_batch {
                            Some(batch) => old(self).batch_after(samples@[0]) == Some(batch@),
                            None => old(self).batch_after(samples@[0]) is None,
                        }
                    } else {
                        &&& out.sample is None
                        &&& final(self).sample_index == 0
                        &&& final(self).fft_buffer@ == old(self).fft_buffer@
                        &&& out.analyzer_batch is None
                    }
                },
                None => {
                    &&& *final(self) == *old(self)
                    &&& out.analyzer_batch is None
                    &&& out.sample == silence_or_end(
                        finished,
                        old(self).initial_buffering_complete,
                        old(self).stuck_at(now_ms),
                    )
                    &&& out.force_finished == forces_finish(
                        finished,
                        old(self).initial_buffering_complete,
                        old(self).stuck_at(now_ms),
                    )
                },
            },
    {
        match received {
            Some(samples) => {
                self.samples_received = self.samples_received.saturating_add(samples.len());
                self.last_sample_ms = now_ms;
                if self.buffering && self.samples_received > EARLY_BUFFERING_SAMPLES {
                    self.buffering = false;
                }
                if !self.initial_buffering_complete && self.samples_received
                    > MIN_BUFFERING_SAMPLES {
                    self.initial_buffering_complete = true;
                }
                self.current_samples = samples;
                self.sample_index = 0;
                if self.current_samples.len() > 0 {
                    self.next_buffered()
                } else {
                    Pulled { sample: None, analyzer_batch: None, force_finished: false }
                }
            },
            None => {
                let base: u64 = if !self.initial_buffering_complete {
                    if self.is_history_track {
                        TIMEOUT_HISTORY_TRACK_MS
                    } else {
                        TIMEOUT_INITIAL_BUFFERING_MS
                    }
                } else {
                    TIMEOUT_MID_PLAYBACK_MS
                };
                let threshold: u64 = base * (self.network_quality_permille as u64) / 1000;
                let timeout = now_ms.saturating_sub(self.last_sample_ms) > threshold;
                if finished && self.initial_buffering_complete {
                    Pulled { sample: None, analyzer_batch: None, force_finished: false }
                } else if timeout {
                    Pulled { sample: None, analyzer_batch: None, force_finished: true }
                } else {
                    Pulled { sample: Some(0), analyzer_batch: None, force_finished: false }
                }
            },
        }
    }

    /// The number of channels of the samples.
    pub fn channels(&self) -> (c: u16)
        ensures
            c == self.channels,
    {
        self.channels
    }

    /// The sample rate of the samples, in hertz.
    pub fn sample_rate(&self) -> (r: u32)
        ensures
            r == self.sample_rate,
    {
        self.sample_rate
    }

    /// The length of the current frame: not known, of a stream.
    pub fn current_frame_len(&self) -> (n: Option<usize>)
        ensures
            n is None,
    {
        None
    }

    /// The total duration in milliseconds: not known, of a stream.
    pub fn total_duration(&self) -> (d: Option<u64>)
        ensures
            d is None,
    {
        None
    }
}

/// The sample that a pull gets when the queue has nothing: none if the
/// stream has ended or is stuck, else silence.
pub open spec fn silence_or_end(finished: bool, buffering_complete: bool, stuck: bool) -> Option<i16> {
    if (finished && buffering_complete) || stuck {
        None
    } else {
        Some(0i16)
    }
}

/// Whether a pull that found the queue empty asks for the finished flag to
/// be set: when the stream is stuck and has not ended cleanly.
pub open spec fn forces_finish(finished: bool, buffering_complete: bool, stuck: bool) -> bool {
    !(finished && buffering_complete) && stuck
}

/// If no samples have come for longer than the threshold that applies, the
/// next pull ends the stream of samples and asks for the finished flag,
/// though the pipeline has never set it. With the flag set, the session
/// counts as finished as soon as the output has run dry and playback is not
/// paused.
pub proof fn lemma_stuck_stream_finishes(
    last_sample_ms: u64,
    now: u64,
    buffering_complete: bool,
    is_history_track: bool,
    quality_permille: u32,
    player: AudioPlayer,
    later: u64,
)
    requires
        is_stuck(last_sample_ms, now, buffering_complete, is_history_track, quality_permille),
        !player.is_paused(),
    ensures
        silence_or_end(false, buffering_complete, true) is None,
        forces_finish(false, buffering_complete, true),
        player.finished_at(later, true, true),
{
}

/// The threshold of silence is 15 s for a track from the history and 12 s
/// for any other while the first two seconds are being buffered, and 5 s
/// after that, each times the network quality factor. Once buffering is
/// complete the threshold is no longer than before.
pub proof fn lemma_thresholds(quality_permille: u32, is_history_track: bool)
    ensures
        stuck_threshold_ms(false, true, quality_permille) == 15_000 * quality_permille / 1000,
        stuck_threshold_ms(false, false, quality_permille) == 12_000 * quality_permille / 1000,
        stuck_threshold_ms(true, is_history_track, quality_permille) == 5_000 * quality_permille
            / 1000,
        stuck_threshold_ms(true, is_history_track, quality_permille) <= stuck_threshold_ms(
            false,
            is_history_track,
            quality_permille,
        ),
{
}

} // verus!
