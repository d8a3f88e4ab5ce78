//! The streaming pipeline: from the media address to frames of samples.
//!
//! The pipeline's thread performs the requests and reads the chunks. This
//! module holds what it decides in between: whether to resolve a redirect
//! first, what follows an answer to a fetch, what a chunk forwards, how a
//! broken stream is resumed, and when the finished flag is set.

use vstd::prelude::*;
use vstd::string::*;
use crate::buffer::{StreamBuffer, frames_beyond};
use crate::decoder::{frame_seqs, mp3_frames};
use crate::redirect::{ResolveError, accepts_status, is_success_status};
use crate::retry::{RetryPolicy, RetryStep};
use crate::text::{append_decimal, decimal};

verus! {

/// A broken stream is resumed at most this many times in a row.
pub const RESUME_ATTEMPTS: u32 = 2;

/// The wait before each attempt at resuming.
pub const RESUME_WAIT_MS: u64 = 500;

/// How the pipeline begins.
#[derive(Debug)]
pub enum StartStep {
    /// Ask the stream address for the redirect first.
    Resolve,
    /// Fetch from this media address directly.
    Connect(String),
}

/// What came back from a request for the media.
#[derive(Clone, Copy, Debug, PartialEq, Eq, Structural)]
pub enum ConnectOutcome {
    /// An answer with this status code.
    Status(u16),
    /// The request did not get through.
    TransportError,
}

/// Why the pipeline failed for good.
#[derive(Clone, Copy, Debug, PartialEq, Eq, Structural)]
pub enum StreamError {
    /// No redirect target could be had.
    Resolve(ResolveError),
    /// The media could not be opened in three attempts. `seeking` says
    /// whether this was the fetch of a seek.
    ConnectFailed { seeking: bool },
    /// The stream broke and could not be resumed from this byte.
    ResumeFailed { offset: u64 },
}

/// What follows an answer to the first request for the media.
#[derive(Clone, Copy, Debug, PartialEq, Eq, Structural)]
pub enum ConnectStep {
    /// The stream is open.
    Connected,
    RetryAfter { wait_ms: u64, next_attempt: u32 },
    Failed(StreamError),
}

/// A request to pick the stream up again: wait, then fetch from `offset`.
#[derive(Clone, Copy, Debug, PartialEq, Eq, Structural)]
pub struct ResumeRequest {
    pub wait_ms: u64,
    pub offset: u64,
    pub attempt: u32,
}

/// What follows an answer to a request to resume.
#[derive(Clone, Copy, Debug, PartialEq, Eq, Structural)]
pub enum ResumeStep {
    /// The stream is open again; reading goes on.
    Resumed,
    Retry(ResumeRequest),
    Failed(StreamError),
}

/// What a read error leads to.
#[derive(Clone, Copy, Debug, PartialEq, Eq, Structural)]
pub enum ReadErrorStep {
    /// The session was torn down: leave at once.
    Exit,
    /// Try to pick the stream up again.
    Resume(ResumeRequest),
}

/// What a chunk leads to.
#[derive(Debug)]
pub enum ChunkStep {
    /// The session was torn down: leave at once, the chunk unread.
    Exit,
    /// Forward these frames to the playback queue and, where there is one,
    /// to the analyzer's download queue.
    Forward(Vec<Vec<i16>>),
}

/// True if `outcome` is an answer that carries media.
pub open spec fn is_connected(outcome: ConnectOutcome) -> bool {
    outcome matches ConnectOutcome::Status(status) && is_success_status(status)
}

/// What follows attempt number `attempt` at opening the media: up to three
/// attempts, with 500 ms times the attempt's number between them.
pub open spec fn connect_step_for(attempt: u32, outcome: ConnectOutcome, seeking: bool) -> ConnectStep {
    if is_connected(outcome) {
        ConnectStep::Connected
    } else if attempt < 3 {
        ConnectStep::RetryAfter { wait_ms: (500 * attempt) as u64, next_attempt: (attempt + 1) as u32 }
    } else {
        ConnectStep::Failed(StreamError::ConnectFailed { seeking })
    }
}

/// What follows attempt number `attempt` at resuming from `offset`: up to
/// two attempts, each after a wait of 500 ms.
pub open spec fn resume_step_for(attempt: u32, outcome: ConnectOutcome, offset: u64) -> ResumeStep {
    if is_connected(outcome) {
        ResumeStep::Resumed
    } else if attempt < 2 {
        ResumeStep::Retry(ResumeRequest { wait_ms: 500, offset, attempt: (attempt + 1) as u32 })
    } else {
        ResumeStep::Failed(StreamError::ResumeFailed { offset })
    }
}

/// Decides how the pipeline begins: with the media address that the caller
/// resolved ahead of time, if there is one, else with the redirect.
pub fn start_step(prefetched_cdn_url: Option<String>) -> (step: StartStep)
    ensures
        step == (match prefetched_cdn_url {
            Some(url) => StartStep::Connect(url),
            None => StartStep::Resolve,
        }),
{
    match prefetched_cdn_url {
        Some(url) => StartStep::Connect(url),
        None => StartStep::Resolve,
    }
}

fn connected(outcome: ConnectOutcome) -> (ok: bool)
    ensures
        ok == is_connected(outcome),
{
    match outcome {
        ConnectOutcome::Status(status) => accepts_status(status),
        ConnectOutcome::TransportError => false,
    }
}

/// Decides what follows attempt number `attempt`, counted from 1, at
/// opening the media. `seeking` says whether this is the fetch of a seek.
pub fn connect_step(attempt: u32, outcome: ConnectOutcome, seeking: bool) -> (step: ConnectStep)
    ensures
        step == connect_step_for(attempt, outcome, seeking),
{
    if connected(outcome) {
        ConnectStep::Connected
    } else {
        match RetryPolicy::connect().after_failure(attempt) {
            RetryStep::RetryAfter { wait_ms, next_attempt } => {
                assert(wait_ms == 500 * attempt) by (nonlinear_arith)
                    requires
                        wait_ms == (500 as nat) * (attempt as nat),
                ;
                ConnectStep::RetryAfter { wait_ms, next_attempt }
            },
            RetryStep::GiveUp => ConnectStep::Failed(StreamError::ConnectFailed { seeking }),
        }
    }
}

/// The state that the pipeline's thread owns.
#[derive(Debug)]
pub struct StreamPipeline {
    pub buffer: StreamBuffer,
    /// The offset in the media of the next byte to come.
    pub total_downloaded: u64,
    /// The finished flag that the pull source reads.
    pub finished: bool,
}

impl StreamPipeline {
    /// A pipeline that reads the media from `byte_offset`.
    pub fn new(byte_offset: u64) -> (p: StreamPipeline)
        ensures
            p.buffer.bytes() == Seq::<u8>::empty(),
            p.buffer.emitted() == 0,
            p.total_downloaded == byte_offset,
            !p.finished,
    {
        StreamPipeline { buffer: StreamBuffer::new(), total_downloaded: byte_offset, finished: false }
    }

    /// Takes in a chunk. `shutdown` is the shutdown signal as read before
    /// the chunk is looked at: when it is set nothing is changed and nothing
    /// is forwarded. Otherwise the chunk is counted and goes through the
    /// buffer.
    pub fn on_chunk(&mut self, chunk: &[u8], shutdown: bool) -> (step: ChunkStep)
        requires
            old(self).total_downloaded + chunk@.len() <= u64::MAX,
        ensures
            shutdown ==> step is Exit && *final(self) == *old(self),
            !shutdown ==> {
                &&& step matches ChunkStep::Forward(frames) && frame_seqs(frames@) == old(
                    self,
                ).buffer.forwarded_by(chunk@)
                &&& final(self).buffer.bytes() == old(self).buffer.bytes_after(chunk@)
                &&& final(self).buffer.emitted() == old(self).buffer.emitted_after(chunk@)
                &&& final(self).buffer.wf()
                &&& final(self).total_downloaded == old(self).total_downloaded + chunk@.len()
                &&& final(self).finished == old(self).finished
            },
    {
        if shutdown {
            return ChunkStep::Exit;
        }
        self.total_downloaded = self.total_downloaded + chunk.len() as u64;
        let frames = self.buffer.absorb(chunk);
        ChunkStep::Forward(frames)
    }

    /// Takes note that the playback queue has no receiver any more: the
    /// finished flag is set, and the thread leaves.
    pub fn consumer_gone(&mut self)
        ensures
            final(self).finished,
            final(self).buffer == old(self).buffer,
            final(self).total_downloaded == old(self).total_downloaded,
    {
        self.finished = true;
    }

    /// Decides what follows a read error in mid-stream. `shutdown` is the
    /// shutdown signal as read when the error came in: when it is set the
    /// thread leaves. Otherwise the first request to resume is made: wait,
    /// then fetch from the byte that comes next.
    pub fn on_read_error(&self, shutdown: bool) -> (step: ReadErrorStep)
        ensures
            step == (if shutdown {
                ReadErrorStep::Exit
            } else {
                ReadErrorStep::Resume(
                    ResumeRequest {
                        wait_ms: RESUME_WAIT_MS,
                        offset: self.total_downloaded,
                        attempt: 1,
                    },
                )
            }),
    {
        if shutdown {
            ReadErrorStep::Exit
        } else {
            ReadErrorStep::Resume(
                ResumeRequest { wait_ms: RESUME_WAIT_MS, offset: self.total_downloaded, attempt: 1 },
            )
        }
    }

    /// Decides what follows attempt number `attempt`, counted from 1, at
    /// resuming the stream.
    pub fn on_resume_outcome(&self, attempt: u32, outcome: ConnectOutcome) -> (step: ResumeStep)
        ensures
            step == resume_step_for(attempt, outcome, self.total_downloaded),
    {
        if connected(outcome) {
            ResumeStep::Resumed
        } else if attempt < RESUME_ATTEMPTS {
            ResumeStep::Retry(
                ResumeRequest {
                    wait_ms: RESUME_WAIT_MS,
                    offset: self.total_downloaded,
                    attempt: attempt + 1,
                },
            )
        } else {
            ResumeStep::Failed(StreamError::ResumeFailed { offset: self.total_downloaded })
        }
    }

    /// The stream has ended cleanly: hands back the frames that are left to
    /// forward and sets the finished flag.
    pub fn on_end(&mut self) -> (frames: Vec<Vec<i16>>)
        ensures
            frame_seqs(frames@) == frames_beyond(
                mp3_frames(old(self).buffer.bytes()),
                old(self).buffer.emitted(),
            ),
            final(self).finished,
            final(self).buffer == old(self).buffer,
            final(self).total_downloaded == old(self).total_downloaded,
    {
        let frames = self.buffer.remaining_frames();
        self.finished = true;
        frames
    }
}

impl StreamError {
    /// The text of the error.
    pub open spec fn message_text(self) -> Seq<char> {
        match self {
            StreamError::Resolve(e) => e.message_text(),
            StreamError::ConnectFailed { seeking } => if seeking {
                "Seek CDN request failed after 3 attempts"@
            } else {
                "CDN failed after 3 attempts"@
            },
            StreamError::ResumeFailed { offset } => "Stream failed and could not resume from byte "@
                + decimal(offset as nat),
        }
    }

    pub fn message(&self) -> (text: String)
        ensures
            text@ == self.message_text(),
    {
        match self {
            StreamError::Resolve(e) => e.message(),
            StreamError::ConnectFailed { seeking } => if *seeking {
                String::from_str("Seek CDN request failed after 3 attempts")
            } else {
                String::from_str("CDN failed after 3 attempts")
            },
            StreamError::ResumeFailed { offset } => {
                let mut text = String::from_str("Stream failed and could not resume from byte ");
                append_decimal(&mut text, *offset);
                text
            },
        }
    }
}

/// A stream that keeps failing to resume is asked for twice, no more, and
/// always from the byte that comes next; a fetch that keeps failing is made
/// three times, no more.
pub proof fn lemma_stream_retries_are_bounded(
    attempt: u32,
    outcome: ConnectOutcome,
    offset: u64,
    seeking: bool,
)
    requires
        !is_connected(outcome),
    ensures
        attempt >= 2 ==> resume_step_for(attempt, outcome, offset) == ResumeStep::Failed(
            StreamError::ResumeFailed { offset },
        ),
        attempt < 2 ==> resume_step_for(attempt, outcome, offset) == ResumeStep::Retry(
            ResumeRequest { wait_ms: 500, offset, attempt: (attempt + 1) as u32 },
        ),
        attempt >= 3 ==> connect_step_for(attempt, outcome, seeking) == ConnectStep::Failed(
            StreamError::ConnectFailed { seeking },
        ),
        attempt < 3 ==> connect_step_for(attempt, outcome, seeking) == (ConnectStep::RetryAfter {
            wait_ms: (500 * attempt) as u64,
            next_attempt: (attempt + 1) as u32,
        }),
{
}

} // verus!
