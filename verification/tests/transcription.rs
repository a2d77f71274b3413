use fluid_voice_windows::model_catalog::{ModelCatalog, ModelCatalogError};
use fluid_voice_windows::settings::AppSettings;
use fluid_voice_windows::transcription::{
    join_segments, transcript_from_segments, whisper_language, TranscriptionError,
    WhisperTranscriptionProvider,
};

#[test]
fn missing_model_file_is_not_downloaded() {
    let provider = WhisperTranscriptionProvider::new(ModelCatalog::new("data"));
    let settings = AppSettings::default();
    match provider.prepare(&settings, 0) {
        Err(e) => {
            assert!(matches!(&e, TranscriptionError::ModelNotDownloaded(id) if id == "whisper-base.en"));
            assert_eq!(e.message(), "model is not downloaded: whisper-base.en");
        }
        Ok(()) => panic!("empty model accepted"),
    }
    assert!(provider.prepare(&settings, 1).is_ok());
    assert_eq!(provider.provider_id(), "whisper-local");
}

#[test]
fn unknown_model_and_empty_audio_are_refused() {
    let provider = WhisperTranscriptionProvider::new(ModelCatalog::new("data"));
    let mut settings = AppSettings::default();
    assert!(matches!(
        provider.check_transcribable(0, &settings, 10),
        Err(TranscriptionError::EmptyAudio)
    ));
    settings.transcription.model_id = "whisper-large".to_string();
    let e = provider.check_transcribable(10, &settings, 10).unwrap_err();
    assert!(matches!(
        e,
        TranscriptionError::ModelCatalog(ModelCatalogError::UnknownModel(_))
    ));
    assert_eq!(e.message(), "model catalog error: unknown model id: whisper-large");
}

#[test]
fn segments_join_into_a_trimmed_transcript() {
    let segments = vec![" Hello ".to_string(), "world.  ".to_string(), "".to_string()];
    assert_eq!(join_segments(&segments), "Hello world.");
    assert_eq!(join_segments(&Vec::new()), "");
    let one = vec!["\tsingle\n".to_string()];
    assert_eq!(join_segments(&one), "single");
}

#[test]
fn transcript_carries_model_language_and_duration() {
    let mut settings = AppSettings::default();
    settings.language = "de".to_string();
    let segments = vec![" Guten".to_string(), "Tag ".to_string()];
    let r = transcript_from_segments(&segments, &settings, 1500);
    assert_eq!(r.raw_text, "Guten Tag");
    assert_eq!(r.model_id, "whisper-base.en");
    assert_eq!(r.language, "de");
    assert_eq!(r.audio_duration_ms, 1500);
}

#[test]
fn auto_language_lets_the_runtime_detect() {
    let mut settings = AppSettings::default();
    assert_eq!(whisper_language(&settings), None);
    settings.language = "en".to_string();
    assert_eq!(whisper_language(&settings), Some("en".to_string()));
}
