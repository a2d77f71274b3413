use fluid_voice_windows::commands::{
    DictationAction, DictationEvent, DictationFlow, DictationResult, ModelDownloadProgress,
};
use fluid_voice_windows::enhancement::{EnhancementError, EnhancementResult};
use fluid_voice_windows::history::EntryTime;
use fluid_voice_windows::settings::{AppSettings, TextInsertionMode};
use fluid_voice_windows::text_insertion::InsertionResult;
use fluid_voice_windows::transcription::TranscriptResult;

fn transcript() -> TranscriptResult {
    TranscriptResult {
        raw_text: "send this tomorrow".to_string(),
        model_id: "whisper-base.en".to_string(),
        language: "auto".to_string(),
        audio_duration_ms: 1000,
    }
}

fn inserted_ok() -> InsertionResult {
    InsertionResult {
        attempted_mode: TextInsertionMode::SendInput,
        success: true,
        inserted_characters: 4,
        fallback_used: false,
        message: "Inserted with SendInput".to_string(),
    }
}

fn finished(action: DictationAction) -> Result<DictationResult, String> {
    match action {
        DictationAction::Finished(r) => r,
        other => panic!("expected the end, got {:?}", other),
    }
}

#[test]
fn raw_transcript_is_final_without_enhancement() {
    let mut settings = AppSettings::default();
    settings.history.enabled = false;
    let (_flow, action) = DictationFlow::start(settings, transcript(), false);
    let result = finished(action).unwrap();
    assert_eq!(result.final_text, "send this tomorrow");
    assert!(result.enhancement.is_none());
    assert!(result.insertion.is_none());
    assert!(result.history_id.is_none());
}

#[test]
fn enhancement_failure_falls_back_to_raw_transcript() {
    let mut settings = AppSettings::default();
    settings.enhancement.enabled = true;
    let (mut flow, action) = DictationFlow::start(settings, transcript(), true);
    assert!(matches!(action, DictationAction::FetchSecret("openai")));
    let action = flow.advance(DictationEvent::SecretFetched(Ok(None)));
    match &action {
        DictationAction::Enhance { transcript, api_key } => {
            assert_eq!(transcript, "send this tomorrow");
            assert!(api_key.is_none());
        }
        other => panic!("unexpected {:?}", other),
    }
    let action = flow.advance(DictationEvent::Enhanced(Err(EnhancementError::MissingApiKey(
        "openai".to_string(),
    ))));
    match &action {
        DictationAction::Insert { text, .. } => assert_eq!(text, "send this tomorrow"),
        other => panic!("unexpected {:?}", other),
    }
    let action = flow.advance(DictationEvent::Inserted(Ok(inserted_ok())));
    assert!(matches!(action, DictationAction::ReadClock));
    let now = EntryTime { seconds: 1_700_000_000, nanos: 42 };
    let action = flow.advance(DictationEvent::ClockRead(now));
    let id = match &action {
        DictationAction::RecordHistory { entry, max_items } => {
            assert_eq!(*max_items, 200);
            assert_eq!(entry.created_at, now);
            assert_eq!(entry.final_text, "send this tomorrow");
            assert!(entry.inserted);
            assert!(entry.enhancement_provider.is_none());
            entry.id
        }
        other => panic!("unexpected {:?}", other),
    };
    let result = finished(flow.advance(DictationEvent::HistoryRecorded(Ok(())))).unwrap();
    assert_eq!(result.final_text, "send this tomorrow");
    assert_eq!(
        result.enhancement_error.as_deref(),
        Some("missing API key for openai")
    );
    assert_eq!(result.history_id, Some(id));
    assert!(result.insertion.unwrap().success);
}

#[test]
fn enhanced_text_becomes_final_and_history_names_provider() {
    let mut settings = AppSettings::default();
    settings.enhancement.enabled = true;
    let (mut flow, _) = DictationFlow::start(settings, transcript(), false);
    flow.advance(DictationEvent::SecretFetched(Ok(Some("key".to_string()))));
    let action = flow.advance(DictationEvent::Enhanced(Ok(EnhancementResult {
        text: "Send this tomorrow.".to_string(),
        provider: "openai".to_string(),
        model: "gpt-4.1-mini".to_string(),
    })));
    assert!(matches!(action, DictationAction::ReadClock));
    let action = flow.advance(DictationEvent::ClockRead(EntryTime { seconds: 5, nanos: 0 }));
    match &action {
        DictationAction::RecordHistory { entry, .. } => {
            assert_eq!(entry.raw_transcript, "send this tomorrow");
            assert_eq!(entry.final_text, "Send this tomorrow.");
            assert_eq!(entry.enhancement_provider.as_deref(), Some("openai"));
            assert!(!entry.inserted);
        }
        other => panic!("unexpected {:?}", other),
    }
    let result = finished(flow.advance(DictationEvent::HistoryRecorded(Ok(())))).unwrap();
    assert_eq!(result.final_text, "Send this tomorrow.");
    assert!(result.enhancement_error.is_none());
    assert_eq!(result.enhancement.unwrap().provider, "openai");
    assert!(result.insertion.is_none());
    assert!(result.history_id.is_some());
}

#[test]
fn secret_read_failure_falls_back_to_raw_transcript() {
    let mut settings = AppSettings::default();
    settings.enhancement.enabled = true;
    settings.history.enabled = false;
    let (mut flow, _) = DictationFlow::start(settings, transcript(), true);
    let action = flow.advance(DictationEvent::SecretFetched(Err("locked".to_string())));
    match &action {
        DictationAction::Insert { text, .. } => assert_eq!(text, "send this tomorrow"),
        other => panic!("unexpected {:?}", other),
    }
    let result = finished(flow.advance(DictationEvent::Inserted(Ok(inserted_ok())))).unwrap();
    assert_eq!(result.final_text, "send this tomorrow");
    assert!(result.enhancement.is_none());
    assert_eq!(result.enhancement_error.as_deref(), Some("locked"));
    assert!(result.insertion.is_some());
    assert!(result.history_id.is_none());
}

#[test]
fn insertion_failure_ends_dictation_without_history() {
    let (mut flow, action) = DictationFlow::start(AppSettings::default(), transcript(), true);
    assert!(matches!(action, DictationAction::Insert { .. }));
    let err = finished(flow.advance(DictationEvent::Inserted(Err("no focus".to_string()))))
        .unwrap_err();
    assert_eq!(err, "no focus");
}

#[test]
fn download_progress_counts_chunks() {
    let mut progress = ModelDownloadProgress::start("whisper-base.en", Some(100));
    progress.record_chunk(40);
    progress.record_chunk(25);
    assert_eq!(progress.downloaded_bytes, 65);
    assert_eq!(progress.total_bytes, Some(100));
    assert_eq!(progress.model_id, "whisper-base.en");
}
