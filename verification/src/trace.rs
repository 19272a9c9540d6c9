//! Whole sessions: what holds of the events of a session, whatever bytes
//! arrive and whatever the recognizer answers.

use vstd::prelude::*;
use crate::event::{fallback_view, ready_view, Elapsed, EventView, RecognitionView};
use crate::session::{
    after_final, after_finish, after_ingest, after_partial, evicted_count, final_event,
    finish_event, initial, partial_event, triggers, valid, Cadence, Phase, SessionModel,
    CHUNK_INTERVAL_SAMPLES, MAX_BUFFER_SAMPLES, MIN_SAMPLES_FOR_TRANSCRIPTION,
};

verus! {

/// One thing that happens to a session.
pub enum Input {
    /// A chunk of bytes arrives.
    Chunk(Seq<u8>),
    /// A partial run of the recognizer ends: with a text, or in failure.
    PartialOutcome(Option<Seq<char>>),
    /// The input ends.
    EndOfInput,
    /// The final run of the recognizer ends after some time: with a result,
    /// or in failure.
    FinalOutcome(Option<RecognitionView>, Elapsed),
}

/// A session so far: its state, the events it has produced, oldest first,
/// how many samples it has taken in, and how many partial runs of the
/// recognizer it has found due.
pub struct Trace {
    pub state: SessionModel,
    pub events: Seq<EventView>,
    pub taken: nat,
    pub due: nat,
}

/// The state after `input`.
pub open spec fn step_state(m: SessionModel, input: Input) -> SessionModel {
    match input {
        Input::Chunk(bytes) => after_ingest(m, bytes),
        Input::PartialOutcome(outcome) => after_partial(m, outcome),
        Input::EndOfInput => after_finish(m),
        Input::FinalOutcome(outcome, _) => after_final(m, outcome),
    }
}

/// The event that `input` gives rise to, if any.
pub open spec fn step_event(m: SessionModel, input: Input) -> Option<EventView> {
    match input {
        Input::Chunk(_) => None,
        Input::PartialOutcome(outcome) => partial_event(m, outcome),
        Input::EndOfInput => finish_event(m),
        Input::FinalOutcome(outcome, elapsed) => final_event(m, outcome, elapsed),
    }
}

/// How many samples `input` adds to those taken in.
pub open spec fn step_taken(m: SessionModel, input: Input) -> nat {
    match input {
        Input::Chunk(bytes) => if m.phase == Phase::Accumulating {
            bytes.len() / 2
        } else {
            0
        },
        _ => 0,
    }
}

/// Whether `input` makes a partial run of the recognizer due.
pub open spec fn step_due(m: SessionModel, input: Input) -> bool {
    match input {
        Input::Chunk(bytes) => triggers(m, bytes),
        _ => false,
    }
}

/// The session after one more input.
pub open spec fn advance(t: Trace, input: Input) -> Trace {
    Trace {
        state: step_state(t.state, input),
        events: match step_event(t.state, input) {
            Some(event) => t.events.push(event),
            None => t.events,
        },
        taken: t.taken + step_taken(t.state, input),
        due: if step_due(t.state, input) {
            t.due + 1
        } else {
            t.due
        },
    }
}

/// The session of the given cadence after `inputs`, in order. It opens with
/// the ready event.
pub open spec fn run(cadence: Cadence, inputs: Seq<Input>) -> Trace
    decreases inputs.len(),
{
    if inputs.len() == 0 {
        Trace { state: initial(cadence), events: seq![ready_view()], taken: 0, due: 0 }
    } else {
        advance(run(cadence, inputs.drop_last()), inputs.last())
    }
}

/// How many of `events` are final.
pub open spec fn terminal_count(events: Seq<EventView>) -> nat
    decreases events.len(),
{
    if events.len() == 0 {
        0
    } else {
        terminal_count(events.drop_last()) + if events.last().is_final {
            1nat
        } else {
            0nat
        }
    }
}

/// Whether `event` is a partial result over at least the least audio that the
/// recognizer is run over.
pub open spec fn is_sound_partial(event: EventView) -> bool {
    &&& !event.is_final
    &&& event.audio_samples matches Some(samples) && samples >= MIN_SAMPLES_FOR_TRANSCRIPTION
}

/// Whether the partial results among `events` cover no more than `limit`
/// samples each, and each no less than those before it. The first event,
/// which opens the session, is left aside.
pub open spec fn partials_ascend(events: Seq<EventView>, limit: nat) -> bool {
    &&& forall|i: int|
        1 <= i < events.len() && is_sound_partial(#[trigger] events[i]) ==> events[i].audio_samples->0
            <= limit
    &&& forall|i: int, j: int|
        1 <= i <= j < events.len() && is_sound_partial(#[trigger] events[i]) && is_sound_partial(
            #[trigger] events[j],
        ) ==> events[i].audio_samples->0 <= events[j].audio_samples->0
}

/// The text of the latest partial result among `events`; empty where there
/// is none. The first event, which opens the session, is left aside.
pub open spec fn latest_partial_text(events: Seq<EventView>) -> Seq<char>
    decreases events.len(),
{
    if events.len() <= 1 {
        Seq::empty()
    } else if !events.last().is_final {
        events.last().text
    } else {
        latest_partial_text(events.drop_last())
    }
}

/// What holds of a session so far.
pub open spec fn coherent(t: Trace) -> bool {
    &&& valid(t.state)
    &&& t.events.len() >= 1
    &&& t.events[0] == ready_view()
    &&& terminal_count(t.events) == if t.state.terminal_emitted {
        1nat
    } else {
        0nat
    }
    &&& t.state.terminal_emitted ==> t.events.last().is_final
    &&& forall|i: int|
        1 <= i < t.events.len() ==> (#[trigger] t.events[i]).is_final || is_sound_partial(
            t.events[i],
        )
    &&& t.events.len() - 1 - terminal_count(t.events) + if t.state.phase == Phase::AwaitingPartial {
        1nat
    } else {
        0nat
    } <= t.due
    &&& t.due * CHUNK_INTERVAL_SAMPLES + t.state.pending <= t.taken
    &&& partials_ascend(t.events, t.state.buffer.len())
    &&& t.state.last_text == latest_partial_text(t.events)
    &&& t.state.cadence == Cadence::EndOnly ==> t.due == 0
}

proof fn lemma_count_push(events: Seq<EventView>, event: EventView)
    ensures
        terminal_count(events.push(event)) == terminal_count(events) + if event.is_final {
            1nat
        } else {
            0nat
        },
{
    assert(events.push(event).drop_last() =~= events);
}

/// Taking in bytes keeps a session in order, never leaves more than the
/// ceiling in the buffer, and leaves exactly the ceiling where more than that
/// had come together.
pub proof fn lemma_ingest_keeps_ceiling(m: SessionModel, bytes: Seq<u8>)
    requires
        valid(m),
    ensures
        valid(after_ingest(m, bytes)),
        after_ingest(m, bytes).buffer.len() <= MAX_BUFFER_SAMPLES,
        m.phase == Phase::Accumulating && m.buffer.len() + bytes.len() / 2 > MAX_BUFFER_SAMPLES
            ==> after_ingest(m, bytes).buffer.len() == MAX_BUFFER_SAMPLES && evicted_count(
            m,
            bytes,
        ) > 0,
        m.phase == Phase::Accumulating ==> after_ingest(m, bytes).buffer.len() + evicted_count(
            m,
            bytes,
        ) == m.buffer.len() + bytes.len() / 2,
        after_ingest(m, bytes).buffer.len() >= m.buffer.len(),
{
}

/// A partial run of the recognizer comes due only over at least the least
/// audio, and only once at least the interval of new samples has come in
/// since the run before.
pub proof fn lemma_trigger_conditions(m: SessionModel, bytes: Seq<u8>)
    requires
        valid(m),
        triggers(m, bytes),
    ensures
        after_ingest(m, bytes).phase == Phase::AwaitingPartial,
        after_ingest(m, bytes).buffer.len() >= MIN_SAMPLES_FOR_TRANSCRIPTION,
        m.pending + bytes.len() / 2 >= CHUNK_INTERVAL_SAMPLES,
        after_ingest(m, bytes).pending == 0,
{
}

/// One more input keeps a session coherent.
pub proof fn lemma_advance_coherent(t: Trace, input: Input)
    requires
        coherent(t),
    ensures
        coherent(advance(t, input)),
{
    let next = advance(t, input);
    match input {
        Input::Chunk(bytes) => {
            lemma_ingest_keeps_ceiling(t.state, bytes);
        },
        _ => {},
    }
    match step_event(t.state, input) {
        Some(event) => {
            lemma_count_push(t.events, event);
            assert(next.events == t.events.push(event));
            assert(next.events.drop_last() =~= t.events);
            assert forall|i: int| 1 <= i < next.events.len() implies (#[trigger] next.events[i]).is_final
                || is_sound_partial(next.events[i]) by {
                if i < t.events.len() {
                    assert(next.events[i] == t.events[i]);
                }
            }
            assert(forall|i: int| 0 <= i < t.events.len() ==> next.events[i] == t.events[i]);
            assert(partials_ascend(next.events, next.state.buffer.len()));
        },
        None => {
            assert(partials_ascend(next.events, next.state.buffer.len()));
        },
    }
}

/// Every session is coherent, whatever happens to it.
pub proof fn lemma_run_coherent(cadence: Cadence, inputs: Seq<Input>)
    ensures
        coherent(run(cadence, inputs)),
    decreases inputs.len(),
{
    if inputs.len() == 0 {
        let events = seq![ready_view()];
        assert(events.drop_last() =~= Seq::<EventView>::empty());
        assert(terminal_count(events.drop_last()) == 0);
        assert(terminal_count(events) == 0);
    } else {
        lemma_run_coherent(cadence, inputs.drop_last());
        lemma_advance_coherent(run(cadence, inputs.drop_last()), inputs.last());
    }
}

/// A session never produces more than one final event, and none before it
/// is done. A session that is done has produced exactly one, and that one
/// last of all, unless it had audio, its final run of the recognizer failed,
/// and no partial run before had given it a text to fall back on.
pub proof fn lemma_terminal_events(cadence: Cadence, inputs: Seq<Input>)
    ensures
        terminal_count(run(cadence, inputs).events) <= 1,
        run(cadence, inputs).state.phase != Phase::Done ==> terminal_count(run(cadence, inputs).events) == 0,
        run(cadence, inputs).state.phase == Phase::Done ==> (terminal_count(run(cadence, inputs).events) == 1
            && run(cadence, inputs).events.last().is_final) || (run(cadence, inputs).state.last_text.len() == 0
            && run(cadence, inputs).state.buffer.len() > 0),
{
    lemma_run_coherent(cadence, inputs);
}

/// Every event after the ready event that is not final covers at least the
/// least audio that the recognizer is run over. There are no more such
/// events than partial runs that came due, and for each run that came due
/// the session had taken in a full interval of new samples.
pub proof fn lemma_partial_events(cadence: Cadence, inputs: Seq<Input>)
    ensures
        run(cadence, inputs).events.len() >= 1,
        run(cadence, inputs).events[0] == ready_view(),
        forall|i: int|
            1 <= i < run(cadence, inputs).events.len() && !(#[trigger] run(cadence, inputs).events[i]).is_final
                ==> is_sound_partial(run(cadence, inputs).events[i]),
        run(cadence, inputs).events.len() - 1 - terminal_count(run(cadence, inputs).events) <= run(cadence, inputs).due,
        run(cadence, inputs).due * CHUNK_INTERVAL_SAMPLES <= run(cadence, inputs).taken,
{
    lemma_run_coherent(cadence, inputs);
}

/// Partial results come in the order of the audio they cover: none covers
/// less than one before it, and none more than the session holds.
pub proof fn lemma_partials_ordered(cadence: Cadence, inputs: Seq<Input>)
    ensures
        partials_ascend(run(cadence, inputs).events, run(cadence, inputs).state.buffer.len()),
{
    lemma_run_coherent(cadence, inputs);
}

/// The text that a session falls back on is the text of its own latest
/// partial result. Before the first such result there is none, and a final
/// run of the recognizer that fails then ends the session without an event.
pub proof fn lemma_fallback_text(cadence: Cadence, inputs: Seq<Input>, elapsed: Elapsed)
    ensures
        run(cadence, inputs).state.last_text == latest_partial_text(run(cadence, inputs).events),
        run(cadence, inputs).state.phase == Phase::Finalizing ==> final_event(
            run(cadence, inputs).state,
            None,
            elapsed,
        ) == if latest_partial_text(run(cadence, inputs).events).len() > 0 {
            Some(fallback_view(latest_partial_text(run(cadence, inputs).events)))
        } else {
            None
        },
{
    lemma_run_coherent(cadence, inputs);
}

/// The end of a session. The input's end gives the final event at once
/// where no audio came. Otherwise the outcome of the final run gives it,
/// unless the run failed and there is no text to fall back on.
pub proof fn lemma_final_outcome(
    m: SessionModel,
    outcome: Option<RecognitionView>,
    elapsed: Elapsed,
)
    requires
        valid(m),
    ensures
        finish_event(m) is Some <==> m.phase == Phase::Accumulating && m.buffer.len() == 0,
        finish_event(m) matches Some(event) ==> event.is_final,
        final_event(m, outcome, elapsed) is Some <==> m.phase == Phase::Finalizing && (
        outcome is Some || m.last_text.len() > 0),
        final_event(m, outcome, elapsed) matches Some(event) ==> event.is_final,
        after_final(m, outcome).terminal_emitted == (m.terminal_emitted || final_event(
            m,
            outcome,
            elapsed,
        ) is Some),
        m.phase == Phase::Finalizing ==> after_final(m, outcome).phase == Phase::Done,
{
}

/// A session keeps its cadence, and one that runs the recognizer only at
/// the end gives no event between the ready event and the final one.
pub proof fn lemma_end_only_is_quiet(cadence: Cadence, inputs: Seq<Input>)
    ensures
        run(cadence, inputs).state.cadence == cadence,
        cadence == Cadence::EndOnly ==> run(cadence, inputs).events.len() == 1 + terminal_count(
            run(cadence, inputs).events,
        ),
    decreases inputs.len(),
{
    lemma_run_coherent(cadence, inputs);
    if inputs.len() > 0 {
        lemma_end_only_is_quiet(cadence, inputs.drop_last());
    }
}

/// The buffer of a session never holds more than the ceiling.
pub proof fn lemma_buffer_bounded(cadence: Cadence, inputs: Seq<Input>)
    ensures
        run(cadence, inputs).state.buffer.len() <= MAX_BUFFER_SAMPLES,
{
    lemma_run_coherent(cadence, inputs);
}

} // verus!
