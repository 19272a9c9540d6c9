use parakeet_stream::event::{
    Elapsed, Recognition, TimedToken, TranscriptEvent, CHANNELS, SAMPLE_RATE_HZ,
};
use parakeet_stream::format::OutputFormat;

fn token(word: &str, start: f32, end: f32) -> TimedToken {
    TimedToken { word: word.to_string(), start_bits: start.to_bits(), end_bits: end.to_bits() }
}

#[test]
fn audio_format_is_sixteen_kilohertz_mono() {
    assert_eq!(SAMPLE_RATE_HZ, 16_000);
    assert_eq!(CHANNELS, 1);
}

#[test]
fn ready_event_fields() {
    let event = TranscriptEvent::ready();
    assert_eq!(
        event,
        TranscriptEvent {
            text: String::new(),
            is_final: false,
            processing: None,
            audio_samples: Some(0),
            timed_tokens: None,
        }
    );
}

#[test]
fn partial_event_fields() {
    let event = TranscriptEvent::partial("hello".to_string(), 16_000);
    assert_eq!(
        event,
        TranscriptEvent {
            text: "hello".to_string(),
            is_final: false,
            processing: None,
            audio_samples: Some(16_000),
            timed_tokens: None,
        }
    );
}

#[test]
fn final_success_keeps_tokens_in_order() {
    let tokens = vec![token("Hello", 0.0, 0.5), token("world.", 0.5, 1.25)];
    let result = Recognition { text: "Hello world.".to_string(), tokens: tokens.clone() };
    let elapsed = Elapsed { secs: 0, subsec_nanos: 120_000_000 };
    let event = TranscriptEvent::final_success(result, elapsed, 32_000);
    assert_eq!(
        event,
        TranscriptEvent {
            text: "Hello world.".to_string(),
            is_final: true,
            processing: Some(elapsed),
            audio_samples: Some(32_000),
            timed_tokens: Some(tokens),
        }
    );
    let spans = event.timed_tokens.unwrap();
    assert_eq!(f32::from_bits(spans[1].start_bits), 0.5);
    assert_eq!(f32::from_bits(spans[1].end_bits), 1.25);
}

#[test]
fn final_success_without_tokens_has_no_token_field() {
    let result = Recognition { text: "Hi".to_string(), tokens: Vec::new() };
    let event = TranscriptEvent::final_success(result, Elapsed { secs: 1, subsec_nanos: 5 }, 4_800);
    assert_eq!(event.timed_tokens, None);
    assert_eq!(event.text, "Hi");
    assert!(event.is_final);
    assert_eq!(event.processing, Some(Elapsed { secs: 1, subsec_nanos: 5 }));
    assert_eq!(event.audio_samples, Some(4_800));
}

#[test]
fn batch_event_has_no_sample_count() {
    let tokens = vec![token("One.", 0.0, 0.75)];
    let result = Recognition { text: "One.".to_string(), tokens: tokens.clone() };
    let elapsed = Elapsed { secs: 2, subsec_nanos: 0 };
    let event = TranscriptEvent::batch(result, elapsed);
    assert_eq!(
        event,
        TranscriptEvent {
            text: "One.".to_string(),
            is_final: true,
            processing: Some(elapsed),
            audio_samples: None,
            timed_tokens: Some(tokens),
        }
    );
    let bare = TranscriptEvent::batch(
        Recognition { text: String::new(), tokens: Vec::new() },
        elapsed,
    );
    assert_eq!(bare.timed_tokens, None);
    assert_eq!(bare.audio_samples, None);
}

#[test]
fn final_empty_event_fields() {
    let event = TranscriptEvent::final_empty();
    assert_eq!(
        event,
        TranscriptEvent {
            text: String::new(),
            is_final: true,
            processing: Some(Elapsed { secs: 0, subsec_nanos: 0 }),
            audio_samples: Some(0),
            timed_tokens: None,
        }
    );
}

#[test]
fn final_fallback_event_fields() {
    let event = TranscriptEvent::final_fallback("so far".to_string());
    assert_eq!(
        event,
        TranscriptEvent {
            text: "so far".to_string(),
            is_final: true,
            processing: None,
            audio_samples: None,
            timed_tokens: None,
        }
    );
}

#[test]
fn format_names() {
    assert_eq!(OutputFormat::from_name("text"), OutputFormat::Text);
    assert_eq!(OutputFormat::from_name("json"), OutputFormat::Json);
    assert_eq!(OutputFormat::from_name(""), OutputFormat::Json);
    assert_eq!(OutputFormat::from_name("TEXT"), OutputFormat::Json);
    assert_eq!(OutputFormat::from_name("text "), OutputFormat::Json);
}

#[test]
fn plain_line_is_the_text_in_text_mode_only() {
    let event = TranscriptEvent::partial("hello there".to_string(), 20_000);
    assert_eq!(OutputFormat::Text.plain_line(&event), Some("hello there".to_string()));
    assert_eq!(OutputFormat::Json.plain_line(&event), None);
}
