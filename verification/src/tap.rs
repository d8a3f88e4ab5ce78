//! The frequency analyzer tap: two queues of samples merged for one
//! analyzer.
//!
//! The pipeline feeds the download queue, the pull sample source the
//! playback queue. The tap's thread looks into both on every round. This
//! module decides what a round does with what it found.

use vstd::prelude::*;

verus! {

/// The sleep of a round that found both queues empty.
pub const TAP_IDLE_SLEEP_MS: u64 = 5;

/// What a look into a queue found.
#[derive(Debug)]
pub enum QueueRead {
    /// A batch of samples.
    Data(Vec<i16>),
    /// Nothing for now.
    Empty,
    /// Nothing, and the sending side is gone.
    Disconnected,
}

/// What a round of the tap does.
#[derive(Debug)]
pub struct TapRound {
    /// The batches to hand to the analyzer, in this order.
    pub batches: Vec<Vec<i16>>,
    /// True if the thread sleeps `TAP_IDLE_SLEEP_MS` before the next round.
    pub sleep: bool,
    /// True if the thread ends after this round.
    pub terminate: bool,
}

/// The tap. There is one only where visualization is enabled.
#[derive(Clone, Copy, Debug)]
pub struct DualFftTap {}

/// The batches that a round hands to the analyzer: what the download queue
/// had, then what the playback queue had.
pub open spec fn round_batches(download: QueueRead, playback: QueueRead) -> Seq<Vec<i16>> {
    let first = match download {
        QueueRead::Data(samples) => seq![samples],
        _ => Seq::<Vec<i16>>::empty(),
    };
    let second = match playback {
        QueueRead::Data(samples) => seq![samples],
        _ => Seq::<Vec<i16>>::empty(),
    };
    first + second
}

impl DualFftTap {
    /// A tap, if all three band-energy cells are there to write to.
    pub fn new(bass: bool, mid: bool, high: bool) -> (tap: Option<DualFftTap>)
        ensures
            tap is Some <==> bass && mid && high,
    {
        if bass && mid && high {
            Some(DualFftTap {  })
        } else {
            None
        }
    }

    /// Decides what a round does. Whichever queue has data is processed.
    /// The thread ends when the playback queue is disconnected, and sleeps
    /// when it goes on and neither queue had data.
    pub fn round(&self, download: QueueRead, playback: QueueRead) -> (out: TapRound)
        ensures
            out.batches@ == round_batches(download, playback),
            out.terminate == (playback is Disconnected),
            out.sleep == (!(playback is Disconnected) && !(download is Data) && !(playback is Data)),
    {
        let mut batches: Vec<Vec<i16>> = Vec::new();
        let mut got_sample = false;
        let mut terminate = false;
        match download {
            QueueRead::Data(samples) => {
                batches.push(samples);
                got_sample = true;
            },
            QueueRead::Empty => {},
            QueueRead::Disconnected => {},
        }
        match playback {
            QueueRead::Data(samples) => {
                batches.push(samples);
                got_sample = true;
            },
            QueueRead::Empty => {},
            QueueRead::Disconnected => {
                terminate = true;
            },
        }
        assert(batches@ =~= round_batches(download, playback));
        TapRound { batches, sleep: !got_sample && !terminate, terminate }
    }
}

} // verus!
