//! Transcript events: the records a session hands to its consumer, and the
//! recognizer's results they are built from.
//!
//! Times that the recognizer reports in seconds are carried as the bit
//! patterns of IEEE 754 single-precision numbers, and the audio a result
//! covers as a count of samples, so that every field is an exact value.

use vstd::prelude::*;

verus! {

/// Samples per second of the audio a session takes.
pub const SAMPLE_RATE_HZ: u32 = 16_000;

/// Channels of the audio a session takes.
pub const CHANNELS: u16 = 1;

/// One span of a transcript: a piece of text with the time at which it
/// starts and the time at which it ends.
#[derive(Debug, Clone, PartialEq, Eq)]
pub struct TimedToken {
    pub word: String,
    /// Start time in seconds, as the bits of a single-precision number.
    pub start_bits: u32,
    /// End time in seconds, as the bits of a single-precision number.
    pub end_bits: u32,
}

/// The value of a `TimedToken`.
pub struct TimedTokenView {
    pub word: Seq<char>,
    pub start_bits: u32,
    pub end_bits: u32,
}

impl View for TimedToken {
    type V = TimedTokenView;

    open spec fn view(&self) -> TimedTokenView {
        TimedTokenView { word: self.word@, start_bits: self.start_bits, end_bits: self.end_bits }
    }
}

/// The values of a sequence of tokens, in order.
pub open spec fn tokens_view(tokens: Seq<TimedToken>) -> Seq<TimedTokenView> {
    tokens.map_values(|t: TimedToken| t@)
}

/// What one successful run of the recognizer returns.
#[derive(Debug, Clone, PartialEq, Eq)]
pub struct Recognition {
    pub text: String,
    pub tokens: Vec<TimedToken>,
}

/// The value of a `Recognition`.
pub struct RecognitionView {
    pub text: Seq<char>,
    pub tokens: Seq<TimedTokenView>,
}

impl View for Recognition {
    type V = RecognitionView;

    open spec fn view(&self) -> RecognitionView {
        RecognitionView { text: self.text@, tokens: tokens_view(self.tokens@) }
    }
}

/// A span of wall-clock time: whole seconds and the nanoseconds beyond them.
#[derive(Debug, Clone, Copy, PartialEq, Eq)]
pub struct Elapsed {
    pub secs: u64,
    pub subsec_nanos: u32,
}

/// No time at all.
pub open spec fn no_time() -> Elapsed {
    Elapsed { secs: 0, subsec_nanos: 0 }
}

/// One emitted result.
#[derive(Debug, Clone, PartialEq, Eq)]
pub struct TranscriptEvent {
    /// The best current hypothesis.
    pub text: String,
    /// Whether this is the session's last word.
    pub is_final: bool,
    /// What producing the result cost, where that was measured.
    pub processing: Option<Elapsed>,
    /// How many samples of audio the result covers, where that is known.
    pub audio_samples: Option<usize>,
    /// The spans of the transcript; never present and empty.
    pub timed_tokens: Option<Vec<TimedToken>>,
}

/// The value of a `TranscriptEvent`.
pub struct EventView {
    pub text: Seq<char>,
    pub is_final: bool,
    pub processing: Option<Elapsed>,
    pub audio_samples: Option<nat>,
    pub timed_tokens: Option<Seq<TimedTokenView>>,
}

impl View for TranscriptEvent {
    type V = EventView;

    open spec fn view(&self) -> EventView {
        EventView {
            text: self.text@,
            is_final: self.is_final,
            processing: self.processing,
            audio_samples: match self.audio_samples {
                Some(n) => Some(n as nat),
                None => None,
            },
            timed_tokens: match self.timed_tokens {
                Some(tokens) => Some(tokens_view(tokens@)),
                None => None,
            },
        }
    }
}

/// The event that opens a session: the stream is open, nothing was heard yet.
pub open spec fn ready_view() -> EventView {
    EventView {
        text: Seq::empty(),
        is_final: false,
        processing: None,
        audio_samples: Some(0nat),
        timed_tokens: None,
    }
}

/// A hypothesis over `samples` samples of audio that later results may replace.
pub open spec fn partial_view(text: Seq<char>, samples: nat) -> EventView {
    EventView {
        text,
        is_final: false,
        processing: None,
        audio_samples: Some(samples),
        timed_tokens: None,
    }
}

/// The last word of a session whose final recognition succeeded. The spans
/// are left out where the recognizer returned none.
pub open spec fn final_view(result: RecognitionView, elapsed: Elapsed, samples: nat) -> EventView {
    EventView {
        text: result.text,
        is_final: true,
        processing: Some(elapsed),
        audio_samples: Some(samples),
        timed_tokens: if result.tokens.len() == 0 {
            None
        } else {
            Some(result.tokens)
        },
    }
}

/// The result of recognizing a whole recording at once: final, with the time
/// it took, and without a count of samples.
pub open spec fn batch_view(result: RecognitionView, elapsed: Elapsed) -> EventView {
    EventView { audio_samples: None, ..final_view(result, elapsed, 0) }
}

/// The last word of a session that never received audio.
pub open spec fn empty_final_view() -> EventView {
    EventView {
        text: Seq::empty(),
        is_final: true,
        processing: Some(no_time()),
        audio_samples: Some(0nat),
        timed_tokens: None,
    }
}

/// The last word of a session whose final recognition failed: an earlier
/// hypothesis, without any timing.
pub open spec fn fallback_view(text: Seq<char>) -> EventView {
    EventView { text, is_final: true, processing: None, audio_samples: None, timed_tokens: None }
}

impl TranscriptEvent {
    /// Builds the event that opens a session.
    pub fn ready() -> (event: TranscriptEvent)
        ensures
            event@ == ready_view(),
    {
        TranscriptEvent {
            text: String::new(),
            is_final: false,
            processing: None,
            audio_samples: Some(0),
            timed_tokens: None,
        }
    }

    /// Builds a partial result over `audio_samples` samples.
    pub fn partial(text: String, audio_samples: usize) -> (event: TranscriptEvent)
        ensures
            event@ == partial_view(text@, audio_samples as nat),
    {
        TranscriptEvent {
            text,
            is_final: false,
            processing: None,
            audio_samples: Some(audio_samples),
            timed_tokens: None,
        }
    }

    /// Builds the final result from a successful recognition that took
    /// `elapsed` and covered `audio_samples` samples.
    pub fn final_success(result: Recognition, elapsed: Elapsed, audio_samples: usize) -> (event:
        TranscriptEvent)
        ensures
            event@ == final_view(result@, elapsed, audio_samples as nat),
    {
        let Recognition { text, tokens } = result;
        let timed_tokens = if tokens.len() == 0 {
            None
        } else {
            Some(tokens)
        };
        TranscriptEvent {
            text,
            is_final: true,
            processing: Some(elapsed),
            audio_samples: Some(audio_samples),
            timed_tokens,
        }
    }

    /// Builds the result of recognizing a whole recording at once, which
    /// took `elapsed`.
    pub fn batch(result: Recognition, elapsed: Elapsed) -> (event: TranscriptEvent)
        ensures
            event@ == batch_view(result@, elapsed),
    {
        let mut event = TranscriptEvent::final_success(result, elapsed, 0);
        event.audio_samples = None;
        event
    }

    /// Builds the final result of a session without audio.
    pub fn final_empty() -> (event: TranscriptEvent)
        ensures
            event@ == empty_final_view(),
    {
        TranscriptEvent {
            text: String::new(),
            is_final: true,
            processing: Some(Elapsed { secs: 0, subsec_nanos: 0 }),
            audio_samples: Some(0),
            timed_tokens: None,
        }
    }

    /// Builds the degraded final result that carries an earlier hypothesis.
    pub fn final_fallback(text: String) -> (event: TranscriptEvent)
        ensures
            event@ == fallback_view(text@),
    {
        TranscriptEvent {
            text,
            is_final: true,
            processing: None,
            audio_samples: None,
            timed_tokens: None,
        }
    }
}

} // verus!
