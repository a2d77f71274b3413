//! Local Whisper transcription: the checks that come before the runtime
//! is asked to transcribe a recording.
use vstd::prelude::*;
use crate::model_catalog::{catalog_index, ModelCatalog, ModelCatalogError};
use crate::settings::AppSettings;
use crate::text::{
    chars_of, lemma_trim_ends_clean, lemma_trim_of_clean, lemma_trim_trailing_space, push_char,
    push_str, string_from_chars, trim, trim_chars, trim_end, trim_start,
};

verus! {

#[derive(Debug, Clone)]
pub struct TranscriptResult {
    pub raw_text: String,
    pub model_id: String,
    pub language: String,
    pub audio_duration_ms: u64,
}

impl TranscriptResult {
    pub fn duplicate(&self) -> (r: Self)
        ensures
            r == *self,
    {
        TranscriptResult {
            raw_text: self.raw_text.clone(),
            model_id: self.model_id.clone(),
            language: self.language.clone(),
            audio_duration_ms: self.audio_duration_ms,
        }
    }
}

#[derive(Debug)]
pub enum TranscriptionError {
    EmptyAudio,
    ModelNotDownloaded(String),
    ModelCatalog(ModelCatalogError),
    WhisperRuntimeUnavailable,
}

impl TranscriptionError {
    /// The error's message.
    pub fn message(&self) -> (m: String)
        ensures
            self is EmptyAudio ==> m@ == "recording is empty"@,
            self matches TranscriptionError::ModelNotDownloaded(id) ==> m@
                == "model is not downloaded: "@ + id@,
            self matches TranscriptionError::ModelCatalog(ModelCatalogError::UnknownModel(id)) ==> m@
                == "model catalog error: "@ + "unknown model id: "@ + id@,
            self is WhisperRuntimeUnavailable ==> m@
                == "local Whisper runtime is not enabled in this build"@,
    {
        match self {
            TranscriptionError::EmptyAudio => String::from_str("recording is empty"),
            TranscriptionError::ModelNotDownloaded(id) => {
                let mut m = String::from_str("model is not downloaded: ");
                push_str(&mut m, id.as_str());
                m
            },
            TranscriptionError::ModelCatalog(e) => {
                let mut m = String::from_str("model catalog error: ");
                let detail = e.message();
                push_str(&mut m, detail.as_str());
                m
            },
            TranscriptionError::WhisperRuntimeUnavailable => String::from_str(
                "local Whisper runtime is not enabled in this build",
            ),
        }
    }
}

/// Transcription with a local Whisper model from the catalog.
#[derive(Debug)]
pub struct WhisperTranscriptionProvider {
    catalog: ModelCatalog,
}

impl WhisperTranscriptionProvider {
    pub closed spec fn spec_catalog(&self) -> ModelCatalog {
        self.catalog
    }

    pub fn new(catalog: ModelCatalog) -> (p: Self)
        ensures
            p.spec_catalog() == catalog,
    {
        WhisperTranscriptionProvider { catalog }
    }

    pub fn catalog(&self) -> (c: &ModelCatalog)
        ensures
            *c == self.spec_catalog(),
    {
        &self.catalog
    }

    pub fn provider_id(&self) -> (id: &'static str)
        ensures
            id@ == "whisper-local"@,
    {
        "whisper-local"
    }

    /// Whether the selected model can be used: it must be in the catalog
    /// and its file (of `bytes_on_disk` bytes) must not be empty.
    pub fn prepare(&self, settings: &AppSettings, bytes_on_disk: u64) -> (res: Result<
        (),
        TranscriptionError,
    >)
        ensures
            match catalog_index(settings.transcription.model_id@) {
                None => res matches Err(
                    TranscriptionError::ModelCatalog(ModelCatalogError::UnknownModel(id)),
                ) && id@ == settings.transcription.model_id@,
                Some(_) => if bytes_on_disk == 0 {
                    res matches Err(TranscriptionError::ModelNotDownloaded(id)) && id@
                        == settings.transcription.model_id@
                } else {
                    res is Ok
                },
            },
    {
        let status = match self.catalog.status(settings.transcription.model_id.as_str(), bytes_on_disk) {
            Ok(s) => s,
            Err(e) => return Err(TranscriptionError::ModelCatalog(e)),
        };
        if !status.is_downloaded {
            return Err(TranscriptionError::ModelNotDownloaded(settings.transcription.model_id.clone()));
        }
        Ok(())
    }

    /// Whether a recording of `sample_count` samples can be handed to the
    /// runtime: it must not be empty, and the model must be ready.
    pub fn check_transcribable(
        &self,
        sample_count: usize,
        settings: &AppSettings,
        bytes_on_disk: u64,
    ) -> (res: Result<(), TranscriptionError>)
        ensures
            sample_count == 0 ==> res matches Err(TranscriptionError::EmptyAudio),
            sample_count > 0 ==> match catalog_index(settings.transcription.model_id@) {
                None => res matches Err(
                    TranscriptionError::ModelCatalog(ModelCatalogError::UnknownModel(id)),
                ) && id@ == settings.transcription.model_id@,
                Some(_) => if bytes_on_disk == 0 {
                    res matches Err(TranscriptionError::ModelNotDownloaded(id)) && id@
                        == settings.transcription.model_id@
                } else {
                    res is Ok
                },
            },
    {
        if sample_count == 0 {
            return Err(TranscriptionError::EmptyAudio);
        }
        self.prepare(settings, bytes_on_disk)
    }
}

/// The segment texts of a transcription, each trimmed and followed by one
/// space, in order.
pub open spec fn spaced_segments(segments: Seq<Seq<char>>) -> Seq<char>
    decreases segments.len(),
{
    if segments.len() == 0 {
        Seq::empty()
    } else {
        spaced_segments(segments.drop_last()) + trim(segments.last()) + seq![' ']
    }
}

/// The transcript made of the texts of a recording's segments: each segment
/// trimmed, followed by a space, and the whole trimmed.
pub open spec fn transcript_text(segments: Seq<Seq<char>>) -> Seq<char> {
    trim(spaced_segments(segments))
}

/// The texts joined with one space between each two.
pub open spec fn joined_by_spaces(ps: Seq<Seq<char>>) -> Seq<char>
    decreases ps.len(),
{
    if ps.len() == 0 {
        Seq::empty()
    } else if ps.len() == 1 {
        ps[0]
    } else {
        joined_by_spaces(ps.drop_last()) + seq![' '] + ps.last()
    }
}

proof fn lemma_spaced_is_joined(segments: Seq<Seq<char>>)
    requires
        segments.len() > 0,
    ensures
        spaced_segments(segments) == joined_by_spaces(segments.map_values(|s: Seq<char>| trim(s)))
            + seq![' '],
    decreases segments.len(),
{
    let ts = segments.map_values(|s: Seq<char>| trim(s));
    if segments.len() == 1 {
        assert(segments.drop_last() =~= Seq::<Seq<char>>::empty());
        assert(spaced_segments(segments.drop_last()) == Seq::<char>::empty());
        assert(spaced_segments(segments) =~= ts[0] + seq![' ']);
    } else {
        lemma_spaced_is_joined(segments.drop_last());
        assert(segments.drop_last().map_values(|s: Seq<char>| trim(s)) =~= ts.drop_last());
        assert(ts.last() == trim(segments.last()));
        assert(spaced_segments(segments) =~= joined_by_spaces(ts) + seq![' ']);
    }
}

proof fn lemma_joined_ends(ps: Seq<Seq<char>>)
    requires
        ps.len() > 0,
        forall|i: int| 0 <= i < ps.len() ==> #[trigger] ps[i].len() > 0,
    ensures
        joined_by_spaces(ps).len() > 0,
        joined_by_spaces(ps)[0] == ps[0][0],
        joined_by_spaces(ps).last() == ps.last().last(),
    decreases ps.len(),
{
    if ps.len() > 1 {
        lemma_joined_ends(ps.drop_last());
        assert(ps.drop_last()[0] == ps[0]);
        assert(ps.last().len() > 0);
    }
}

/// The transcript is the segment texts, each trimmed of white space on
/// both sides, joined by single spaces and trimmed as a whole; when no
/// segment is blank it is exactly those trimmed texts joined by single
/// spaces, so no white space from inside a segment's edges survives.
pub proof fn law_transcript_joins_trimmed_segments(segments: Seq<Seq<char>>)
    ensures
        transcript_text(segments) == trim(
            joined_by_spaces(segments.map_values(|s: Seq<char>| trim(s))),
        ),
        (forall|i: int| 0 <= i < segments.len() ==> #[trigger] trim(segments[i]).len() > 0)
            ==> transcript_text(segments) == joined_by_spaces(
            segments.map_values(|s: Seq<char>| trim(s)),
        ),
{
    let ts = segments.map_values(|s: Seq<char>| trim(s));
    if segments.len() == 0 {
        assert(spaced_segments(segments) == Seq::<char>::empty());
        assert(trim_start(Seq::<char>::empty()) == Seq::<char>::empty());
        assert(trim_end(Seq::<char>::empty()) == Seq::<char>::empty());
    } else {
        lemma_spaced_is_joined(segments);
        lemma_trim_trailing_space(joined_by_spaces(ts));
        if forall|i: int| 0 <= i < segments.len() ==> #[trigger] trim(segments[i]).len() > 0 {
            assert forall|i: int| 0 <= i < ts.len() implies #[trigger] ts[i].len() > 0 by {
                assert(ts[i] == trim(segments[i]));
            }
            lemma_joined_ends(ts);
            lemma_trim_ends_clean(segments[0]);
            lemma_trim_ends_clean(segments.last());
            assert(ts[0] == trim(segments[0]));
            assert(ts.last() == trim(segments.last()));
            lemma_trim_of_clean(joined_by_spaces(ts));
        }
    }
}

/// Joins the segment texts that the Whisper runtime returned into the
/// transcript.
pub fn join_segments(segments: &Vec<String>) -> (t: String)
    ensures
        t@ == transcript_text(segments@.map_values(|s: String| s@)),
{
    let ghost texts = segments@.map_values(|s: String| s@);
    let mut spaced = String::new();
    let mut i: usize = 0;
    while i < segments.len()
        invariant
            i <= segments.len(),
            texts == segments@.map_values(|s: String| s@),
            spaced@ == spaced_segments(texts.take(i as int)),
        decreases segments.len() - i,
    {
        let v = chars_of(segments[i].as_str());
        let t = trim_chars(&v);
        let piece = string_from_chars(&t);
        push_str(&mut spaced, piece.as_str());
        push_char(&mut spaced, ' ');
        assert(texts.take(i + 1).drop_last() =~= texts.take(i as int));
        assert(texts.take(i + 1).last() == texts[i as int]);
        i = i + 1;
    }
    assert(texts.take(segments.len() as int) =~= texts);
    let all = chars_of(spaced.as_str());
    let trimmed = trim_chars(&all);
    string_from_chars(&trimmed)
}

/// The language that the runtime is told to expect: the settings' language,
/// or none (so that it detects one) when the setting is `auto`.
pub fn whisper_language(settings: &AppSettings) -> (l: Option<String>)
    ensures
        settings.language@ == "auto"@ ==> l is None,
        settings.language@ != "auto"@ ==> (l matches Some(s) && s@ == settings.language@),
{
    let auto = String::from_str("auto");
    if settings.language == auto {
        None
    } else {
        Some(settings.language.clone())
    }
}

/// The result of transcribing a recording of `audio_duration_ms` whose
/// segments have the given texts.
pub fn transcript_from_segments(
    segments: &Vec<String>,
    settings: &AppSettings,
    audio_duration_ms: u64,
) -> (r: TranscriptResult)
    ensures
        r.raw_text@ == transcript_text(segments@.map_values(|s: String| s@)),
        r.model_id@ == settings.transcription.model_id@,
        r.language@ == settings.language@,
        r.audio_duration_ms == audio_duration_ms,
{
    TranscriptResult {
        raw_text: join_segments(segments),
        model_id: settings.transcription.model_id.clone(),
        language: settings.language.clone(),
        audio_duration_ms,
    }
}

} // verus!
