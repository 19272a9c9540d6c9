//! The streaming session: a rolling buffer of samples with a hard ceiling,
//! the cadence that decides when the recognizer runs again, and the rules
//! for the last word of a session.
//!
//! The session never runs the recognizer itself. It says when a run is due
//! and over what, and takes the outcome of that run back as a value.

use vstd::prelude::*;
use crate::event::{
    empty_final_view, fallback_view, final_view, partial_view, Elapsed, EventView, Recognition,
    RecognitionView, TranscriptEvent, CHANNELS, SAMPLE_RATE_HZ,
};
use crate::ingest::{decode_pcm, decoded};

verus! {

/// The least audio, in samples, over which the recognizer is run while the
/// stream is open: one second.
pub const MIN_SAMPLES_FOR_TRANSCRIPTION: usize = 16_000;

/// The new audio, in samples, that must arrive between two partial runs of
/// the recognizer: half a second.
pub const CHUNK_INTERVAL_SAMPLES: usize = 8_000;

/// The most audio, in samples, that a session retains: three minutes.
pub const MAX_BUFFER_SAMPLES: usize = 2_880_000;

/// When the recognizer is run while the stream is open.
#[derive(Debug, Clone, Copy, PartialEq, Eq, Structural)]
pub enum Cadence {
    /// A partial run whenever enough new audio has come in.
    Live,
    /// No partial runs: the recognizer runs once, when the input has ended.
    EndOnly,
}

/// Where a session stands.
#[derive(Debug, Clone, Copy, PartialEq, Eq, Structural)]
pub enum Phase {
    /// Audio is taken in.
    Accumulating,
    /// A partial run of the recognizer is due; its outcome is awaited.
    AwaitingPartial,
    /// The input has ended; the outcome of the final run is awaited.
    Finalizing,
    /// The session is over.
    Done,
}

/// The value of a session.
pub struct SessionModel {
    /// The retained audio, oldest sample first.
    pub buffer: Seq<i16>,
    /// Samples taken in since a run of the recognizer was last found due.
    pub pending: nat,
    /// The text of the latest partial run that succeeded.
    pub last_text: Seq<char>,
    pub phase: Phase,
    /// Whether the session has produced its final event.
    pub terminal_emitted: bool,
    pub cadence: Cadence,
}

/// A session at its start.
pub open spec fn initial(cadence: Cadence) -> SessionModel {
    SessionModel {
        cadence,
        buffer: Seq::empty(),
        pending: 0,
        last_text: Seq::empty(),
        phase: Phase::Accumulating,
        terminal_emitted: false,
    }
}

/// What holds of a session at every moment.
pub open spec fn valid(m: SessionModel) -> bool {
    &&& m.buffer.len() <= MAX_BUFFER_SAMPLES
    &&& m.pending <= m.buffer.len()
    &&& m.phase == Phase::Accumulating ==> (m.pending < CHUNK_INTERVAL_SAMPLES || m.buffer.len()
        < MIN_SAMPLES_FOR_TRANSCRIPTION)
    &&& m.phase == Phase::AwaitingPartial ==> (m.pending == 0 && m.buffer.len()
        >= MIN_SAMPLES_FOR_TRANSCRIPTION)
    &&& m.phase == Phase::Finalizing ==> m.buffer.len() > 0
    &&& m.terminal_emitted ==> m.phase == Phase::Done
    &&& m.cadence == Cadence::EndOnly ==> (m.pending == 0 && m.phase != Phase::AwaitingPartial)
    &&& m.phase == Phase::Done && !m.terminal_emitted ==> (m.last_text.len() == 0 && m.buffer.len()
        > 0)
}

/// The newest samples of `all`, as many as the ceiling admits.
pub open spec fn retained(all: Seq<i16>) -> Seq<i16> {
    if all.len() > MAX_BUFFER_SAMPLES {
        all.subrange(all.len() - MAX_BUFFER_SAMPLES, all.len() as int)
    } else {
        all
    }
}

/// How many of the oldest samples leave the buffer when `bytes` are taken in.
pub open spec fn evicted_count(m: SessionModel, bytes: Seq<u8>) -> nat {
    let total = m.buffer.len() + bytes.len() / 2;
    if m.phase == Phase::Accumulating && total > MAX_BUFFER_SAMPLES {
        (total - MAX_BUFFER_SAMPLES) as nat
    } else {
        0
    }
}

/// Whether taking in `bytes` makes a partial run of the recognizer due.
pub open spec fn triggers(m: SessionModel, bytes: Seq<u8>) -> bool {
    &&& m.cadence == Cadence::Live
    &&& m.phase == Phase::Accumulating
    &&& m.pending + bytes.len() / 2 >= CHUNK_INTERVAL_SAMPLES
    &&& retained(m.buffer + decoded(bytes)).len() >= MIN_SAMPLES_FOR_TRANSCRIPTION
}

/// The session after `bytes` were handed to it. Only a session that is
/// accumulating takes them, and only one with live cadence counts them
/// towards the next partial run.
pub open spec fn after_ingest(m: SessionModel, bytes: Seq<u8>) -> SessionModel {
    if m.phase != Phase::Accumulating {
        m
    } else if triggers(m, bytes) {
        SessionModel {
            buffer: retained(m.buffer + decoded(bytes)),
            pending: 0,
            phase: Phase::AwaitingPartial,
            ..m
        }
    } else {
        SessionModel {
            buffer: retained(m.buffer + decoded(bytes)),
            pending: if m.cadence == Cadence::Live {
                m.pending + bytes.len() / 2
            } else {
                0
            },
            ..m
        }
    }
}

/// The session after the outcome of a partial run: the text where it
/// succeeded, nothing where it failed.
pub open spec fn after_partial(m: SessionModel, outcome: Option<Seq<char>>) -> SessionModel {
    if m.phase != Phase::AwaitingPartial {
        m
    } else {
        match outcome {
            Some(text) => SessionModel { last_text: text, phase: Phase::Accumulating, ..m },
            None => SessionModel { phase: Phase::Accumulating, ..m },
        }
    }
}

/// The event that the outcome of a partial run gives rise to.
pub open spec fn partial_event(m: SessionModel, outcome: Option<Seq<char>>) -> Option<EventView> {
    if m.phase == Phase::AwaitingPartial && outcome is Some {
        Some(partial_view(outcome->0, m.buffer.len()))
    } else {
        None
    }
}

/// The session after its input has ended.
pub open spec fn after_finish(m: SessionModel) -> SessionModel {
    if m.phase != Phase::Accumulating {
        m
    } else if m.buffer.len() == 0 {
        SessionModel { phase: Phase::Done, terminal_emitted: true, ..m }
    } else {
        SessionModel { phase: Phase::Finalizing, ..m }
    }
}

/// The event that the end of the input gives rise to at once.
pub open spec fn finish_event(m: SessionModel) -> Option<EventView> {
    if m.phase == Phase::Accumulating && m.buffer.len() == 0 {
        Some(empty_final_view())
    } else {
        None
    }
}

/// The event that the outcome of the final run gives rise to.
pub open spec fn final_event(
    m: SessionModel,
    outcome: Option<RecognitionView>,
    elapsed: Elapsed,
) -> Option<EventView> {
    if m.phase != Phase::Finalizing {
        None
    } else {
        match outcome {
            Some(result) => Some(final_view(result, elapsed, m.buffer.len())),
            None => if m.last_text.len() > 0 {
                Some(fallback_view(m.last_text))
            } else {
                None
            },
        }
    }
}

/// The session after the outcome of the final run.
pub open spec fn after_final(m: SessionModel, outcome: Option<RecognitionView>) -> SessionModel {
    if m.phase != Phase::Finalizing {
        m
    } else {
        SessionModel {
            phase: Phase::Done,
            terminal_emitted: outcome is Some || m.last_text.len() > 0,
            ..m
        }
    }
}

/// What taking in a chunk of bytes led to.
#[derive(Debug, Clone, Copy, PartialEq, Eq)]
pub struct IngestOutcome {
    /// How many of the oldest samples were dropped to keep the ceiling.
    pub evicted: usize,
    /// Whether a partial run of the recognizer is now due.
    pub recognize: bool,
}

/// How one attempt to read from the input went.
#[derive(Debug, Clone, Copy, PartialEq, Eq, Structural)]
pub enum ReadStatus {
    /// The read returned; it may have returned no bytes at all.
    Data,
    /// The read was interrupted before it returned anything.
    Interrupted,
    /// The read failed for good.
    Failed,
}

/// What the reader of the input does next.
#[derive(Debug, Clone, PartialEq, Eq)]
pub enum Directive {
    /// The bytes were taken in: see to the outcome, then read on.
    Continue(IngestOutcome),
    /// Nothing happened: read again.
    Retry,
    /// The input has ended. Here is the final event, where the session ended
    /// at once; otherwise the final run of the recognizer is due.
    Finalize(Option<TranscriptEvent>),
    /// The input is lost: give up without a final event.
    Abort,
}

/// The session after one attempt to read. A read that returns no bytes is
/// the end of the input; a read that did not return leaves the session as
/// it was.
pub open spec fn after_read(m: SessionModel, status: ReadStatus, bytes: Seq<u8>) -> SessionModel {
    match status {
        ReadStatus::Data => if bytes.len() == 0 {
            after_finish(m)
        } else {
            after_ingest(m, bytes)
        },
        ReadStatus::Interrupted => m,
        ReadStatus::Failed => m,
    }
}

/// Whether `directive` is what follows one attempt to read.
pub open spec fn directive_fits(
    m: SessionModel,
    status: ReadStatus,
    bytes: Seq<u8>,
    directive: Directive,
) -> bool {
    match directive {
        Directive::Continue(outcome) => {
            &&& status == ReadStatus::Data
            &&& bytes.len() > 0
            &&& outcome.evicted == evicted_count(m, bytes)
            &&& outcome.recognize == triggers(m, bytes)
        },
        Directive::Retry => status == ReadStatus::Interrupted,
        Directive::Finalize(event) => {
            &&& status == ReadStatus::Data
            &&& bytes.len() == 0
            &&& event_view(event) == finish_event(m)
        },
        Directive::Abort => status == ReadStatus::Failed,
    }
}

/// How much timing a run of the recognizer is asked for.
#[derive(Debug, Clone, Copy, PartialEq, Eq, Structural)]
pub enum TimestampDetail {
    /// No spans: the fast path.
    Omitted,
    /// Spans by sentence.
    Sentences,
}

/// What a due run of the recognizer is made with, beside the samples.
#[derive(Debug, Clone, Copy, PartialEq, Eq)]
pub struct RecognitionRequest {
    pub sample_rate: u32,
    pub channels: u16,
    pub timestamps: TimestampDetail,
}

/// The request that is due in a phase, if any.
pub open spec fn request_in(phase: Phase) -> Option<RecognitionRequest> {
    match phase {
        Phase::AwaitingPartial => Some(
            RecognitionRequest {
                sample_rate: SAMPLE_RATE_HZ,
                channels: CHANNELS,
                timestamps: TimestampDetail::Omitted,
            },
        ),
        Phase::Finalizing => Some(
            RecognitionRequest {
                sample_rate: SAMPLE_RATE_HZ,
                channels: CHANNELS,
                timestamps: TimestampDetail::Sentences,
            },
        ),
        _ => None,
    }
}

/// The view of an outcome of a partial run.
pub open spec fn text_view(outcome: Option<String>) -> Option<Seq<char>> {
    match outcome {
        Some(text) => Some(text@),
        None => None,
    }
}

/// The view of an outcome of the final run.
pub open spec fn recognition_view(outcome: Option<Recognition>) -> Option<RecognitionView> {
    match outcome {
        Some(result) => Some(result@),
        None => None,
    }
}

/// The view of an event that may be absent.
pub open spec fn event_view(event: Option<TranscriptEvent>) -> Option<EventView> {
    match event {
        Some(e) => Some(e@),
        None => None,
    }
}

/// One stream's session. It is made at the start of the stream and is of no
/// further use once it is `Done`.
pub struct StreamingSession {
    buffer: Vec<i16>,
    pending: usize,
    last_text: String,
    phase: Phase,
    terminal_emitted: bool,
    cadence: Cadence,
}

impl View for StreamingSession {
    type V = SessionModel;

    closed spec fn view(&self) -> SessionModel {
        SessionModel {
            buffer: self.buffer@,
            pending: self.pending as nat,
            last_text: self.last_text@,
            phase: self.phase,
            terminal_emitted: self.terminal_emitted,
            cadence: self.cadence,
        }
    }
}

impl StreamingSession {
    /// Whether the session is in a state that its own operations lead to.
    pub open spec fn wf(&self) -> bool {
        valid(self@)
    }

    /// A session with live cadence at its start: accumulating, with no audio.
    pub fn new() -> (session: StreamingSession)
        ensures
            session.wf(),
            session@ == initial(Cadence::Live),
    {
        StreamingSession::with_cadence(Cadence::Live)
    }

    /// A session with the given cadence at its start.
    pub fn with_cadence(cadence: Cadence) -> (session: StreamingSession)
        ensures
            session.wf(),
            session@ == initial(cadence),
    {
        StreamingSession {
            buffer: Vec::new(),
            pending: 0,
            last_text: String::new(),
            phase: Phase::Accumulating,
            terminal_emitted: false,
            cadence,
        }
    }

    /// Takes in a chunk of bytes: decodes it, appends the samples, drops the
    /// oldest samples beyond the ceiling, and decides whether a partial run
    /// of the recognizer is due. A session that is not accumulating leaves
    /// the bytes aside.
    pub fn ingest(&mut self, bytes: &[u8]) -> (outcome: IngestOutcome)
        requires
            old(self).wf(),
        ensures
            final(self).wf(),
            final(self)@ == after_ingest(old(self)@, bytes@),
            outcome.evicted == evicted_count(old(self)@, bytes@),
            outcome.recognize == triggers(old(self)@, bytes@),
            final(self)@.buffer.len() <= MAX_BUFFER_SAMPLES,
            old(self)@.phase == Phase::Accumulating && old(self)@.buffer.len() + bytes@.len() / 2
                > MAX_BUFFER_SAMPLES ==> final(self)@.buffer.len() == MAX_BUFFER_SAMPLES,
            outcome.recognize ==> final(self)@.buffer.len() >= MIN_SAMPLES_FOR_TRANSCRIPTION
                && old(self)@.pending + bytes@.len() / 2 >= CHUNK_INTERVAL_SAMPLES,
    {
        match self.phase {
            Phase::Accumulating => {},
            _ => {
                return IngestOutcome { evicted: 0, recognize: false };
            },
        }
        let mut samples = decode_pcm(bytes);
        let added: usize = samples.len();
        self.buffer.append(&mut samples);
        let length: usize = self.buffer.len();
        match self.cadence {
            Cadence::Live => {
                self.pending = self.pending + added;
            },
            Cadence::EndOnly => {},
        }
        let mut evicted: usize = 0;
        if length > MAX_BUFFER_SAMPLES {
            evicted = length - MAX_BUFFER_SAMPLES;
            let kept = self.buffer.split_off(evicted);
            self.buffer = kept;
        }
        let recognize = self.pending >= CHUNK_INTERVAL_SAMPLES && self.buffer.len()
            >= MIN_SAMPLES_FOR_TRANSCRIPTION;
        if recognize {
            self.pending = 0;
            self.phase = Phase::AwaitingPartial;
        }
        IngestOutcome { evicted, recognize }
    }

    /// Takes one attempt to read from the input, with the bytes it returned.
    /// Bytes are taken in; a read without bytes ends the input; an
    /// interrupted read is to be made again; a failed read ends everything,
    /// and the session is left as it was.
    pub fn on_read(&mut self, status: ReadStatus, bytes: &[u8]) -> (directive: Directive)
        requires
            old(self).wf(),
        ensures
            final(self).wf(),
            final(self)@ == after_read(old(self)@, status, bytes@),
            directive_fits(old(self)@, status, bytes@, directive),
    {
        match status {
            ReadStatus::Data => {
                if bytes.len() == 0 {
                    Directive::Finalize(self.finish())
                } else {
                    Directive::Continue(self.ingest(bytes))
                }
            },
            ReadStatus::Interrupted => Directive::Retry,
            ReadStatus::Failed => Directive::Abort,
        }
    }

    /// Takes the outcome of the partial run that was due: the text where the
    /// run succeeded, `None` where it failed. A success is remembered and
    /// gives an event; a failure gives none. Either way the session goes on
    /// accumulating. Where no partial run was due, nothing happens.
    pub fn partial_result(&mut self, outcome: Option<String>) -> (event: Option<TranscriptEvent>)
        requires
            old(self).wf(),
        ensures
            final(self).wf(),
            final(self)@ == after_partial(old(self)@, text_view(outcome)),
            event_view(event) == partial_event(old(self)@, text_view(outcome)),
            event is Some ==> old(self)@.buffer.len() >= MIN_SAMPLES_FOR_TRANSCRIPTION,
    {
        match self.phase {
            Phase::AwaitingPartial => {},
            _ => {
                return None;
            },
        }
        self.phase = Phase::Accumulating;
        match outcome {
            Some(text) => {
                self.last_text = text.clone();
                Some(TranscriptEvent::partial(text, self.buffer.len()))
            },
            None => None,
        }
    }

    /// Takes the end of the input. A session without audio ends at once with
    /// its final event; any other awaits the outcome of the final run. Where
    /// the session is not accumulating, nothing happens.
    pub fn finish(&mut self) -> (event: Option<TranscriptEvent>)
        requires
            old(self).wf(),
        ensures
            final(self).wf(),
            final(self)@ == after_finish(old(self)@),
            event_view(event) == finish_event(old(self)@),
    {
        match self.phase {
            Phase::Accumulating => {},
            _ => {
                return None;
            },
        }
        if self.buffer.len() == 0 {
            self.phase = Phase::Done;
            self.terminal_emitted = true;
            Some(TranscriptEvent::final_empty())
        } else {
            self.phase = Phase::Finalizing;
            None
        }
    }

    /// Takes the outcome of the final run, which took `elapsed`: the result
    /// where the run succeeded, `None` where it failed. A success gives the
    /// final event. A failure gives the latest partial text as the final
    /// event, if there is any, and no event otherwise. Where no final run was
    /// due, nothing happens.
    pub fn final_result(&mut self, outcome: Option<Recognition>, elapsed: Elapsed) -> (event:
        Option<TranscriptEvent>)
        requires
            old(self).wf(),
        ensures
            final(self).wf(),
            final(self)@ == after_final(old(self)@, recognition_view(outcome)),
            event_view(event) == final_event(old(self)@, recognition_view(outcome), elapsed),
            event is Some <==> final(self)@.terminal_emitted && !old(self)@.terminal_emitted,
            event is Some ==> event->0.is_final,
    {
        match self.phase {
            Phase::Finalizing => {},
            _ => {
                return None;
            },
        }
        self.phase = Phase::Done;
        match outcome {
            Some(result) => {
                self.terminal_emitted = true;
                Some(TranscriptEvent::final_success(result, elapsed, self.buffer.len()))
            },
            None => {
                if !self.last_text.as_str().is_empty() {
                    self.terminal_emitted = true;
                    Some(TranscriptEvent::final_fallback(self.last_text.clone()))
                } else {
                    None
                }
            },
        }
    }

    /// What the run of the recognizer that is due is made with; the samples
    /// are those of `samples`. `None` where no run is due.
    pub fn recognition_request(&self) -> (request: Option<RecognitionRequest>)
        ensures
            request == request_in(self@.phase),
    {
        match self.phase {
            Phase::AwaitingPartial => Some(
                RecognitionRequest {
                    sample_rate: SAMPLE_RATE_HZ,
                    channels: CHANNELS,
                    timestamps: TimestampDetail::Omitted,
                },
            ),
            Phase::Finalizing => Some(
                RecognitionRequest {
                    sample_rate: SAMPLE_RATE_HZ,
                    channels: CHANNELS,
                    timestamps: TimestampDetail::Sentences,
                },
            ),
            _ => None,
        }
    }

    /// The retained audio, oldest sample first.
    pub fn samples(&self) -> (samples: &Vec<i16>)
        ensures
            samples@ == self@.buffer,
    {
        &self.buffer
    }

    /// How many samples are retained.
    pub fn buffered_samples(&self) -> (count: usize)
        ensures
            count == self@.buffer.len(),
    {
        self.buffer.len()
    }

    /// How many samples came in since a run of the recognizer was last due.
    pub fn pending_samples(&self) -> (count: usize)
        ensures
            count == self@.pending,
    {
        self.pending
    }

    /// The text of the latest partial run that succeeded; empty before one.
    pub fn last_text(&self) -> (text: &String)
        ensures
            text@ == self@.last_text,
    {
        &self.last_text
    }

    /// When the session has the recognizer run.
    pub fn cadence(&self) -> (cadence: Cadence)
        ensures
            cadence == self@.cadence,
    {
        self.cadence
    }

    /// Where the session stands.
    pub fn phase(&self) -> (phase: Phase)
        ensures
            phase == self@.phase,
    {
        self.phase
    }

    /// Whether the session has produced its final event.
    pub fn terminal_emitted(&self) -> (emitted: bool)
        ensures
            emitted == self@.terminal_emitted,
    {
        self.terminal_emitted
    }
}

} // verus!
