//! What the app's commands decide: the steps that finish a dictation once
//! the recording is transcribed, and the progress of a model download.
use vstd::prelude::*;
use crate::enhancement::{
    is_enhancement_message, provider_key, provider_key_of, EnhancementError,
    EnhancementResult,
};
use crate::history::{EntryTime, HistoryEntry};
use crate::settings::{AppSettings, TextInsertionSettings};
use crate::text_insertion::InsertionResult;
use crate::transcription::TranscriptResult;

verus! {

/// Progress of a model download, reported after each received chunk.
#[derive(Debug, Clone)]
pub struct ModelDownloadProgress {
    pub model_id: String,
    pub downloaded_bytes: u64,
    pub total_bytes: Option<u64>,
}

impl ModelDownloadProgress {
    /// No bytes received yet of a download of `total_bytes` (when known).
    pub fn start(model_id: &str, total_bytes: Option<u64>) -> (p: Self)
        ensures
            p.model_id@ == model_id@,
            p.downloaded_bytes == 0,
            p.total_bytes == total_bytes,
    {
        ModelDownloadProgress { model_id: String::from_str(model_id), downloaded_bytes: 0, total_bytes }
    }

    /// Counts a received chunk of `chunk_len` bytes.
    pub fn record_chunk(&mut self, chunk_len: usize)
        requires
            old(self).downloaded_bytes + chunk_len <= u64::MAX,
        ensures
            final(self).downloaded_bytes == old(self).downloaded_bytes + chunk_len,
            final(self).model_id == old(self).model_id,
            final(self).total_bytes == old(self).total_bytes,
    {
        self.downloaded_bytes = self.downloaded_bytes + chunk_len as u64;
    }

    pub fn duplicate(&self) -> (r: Self)
        ensures
            r == *self,
    {
        ModelDownloadProgress {
            model_id: self.model_id.clone(),
            downloaded_bytes: self.downloaded_bytes,
            total_bytes: self.total_bytes,
        }
    }
}

/// The outcome of a finished dictation.
#[derive(Debug, Clone)]
pub struct DictationResult {
    pub transcript: TranscriptResult,
    pub final_text: String,
    pub enhancement: Option<EnhancementResult>,
    pub enhancement_error: Option<String>,
    pub insertion: Option<InsertionResult>,
    pub history_id: Option<u128>,
}

/// Where finishing a dictation stands.
#[derive(Debug, Clone, Copy, PartialEq, Eq, Structural)]
pub enum DictationPhase {
    FetchingSecret,
    Enhancing,
    Inserting,
    ReadingClock,
    RecordingHistory,
    Done,
}

/// The step of finishing a dictation that the caller performs next.
#[derive(Debug)]
pub enum DictationAction {
    /// Read the API key stored under this slot.
    FetchSecret(&'static str),
    /// Enhance the transcript with this key (if one is stored).
    Enhance { transcript: String, api_key: Option<String> },
    /// Insert the text into the focused application.
    Insert { text: String, settings: TextInsertionSettings },
    /// Read the current time, for the history entry.
    ReadClock,
    /// Append the entry to the history, keeping at most `max_items`.
    RecordHistory { entry: HistoryEntry, max_items: usize },
    /// Finishing is over: the result, or the message of what failed.
    Finished(Result<DictationResult, String>),
}

/// What a performed step returned.
#[derive(Debug)]
pub enum DictationEvent {
    SecretFetched(Result<Option<String>, String>),
    Enhanced(Result<EnhancementResult, EnhancementError>),
    Inserted(Result<InsertionResult, String>),
    ClockRead(EntryTime),
    HistoryRecorded(Result<(), String>),
}

/// How many steps at most remain from a phase: every step moves the flow
/// to a phase of lower rank, so finishing a dictation takes at most five.
pub open spec fn phase_rank(phase: DictationPhase) -> nat {
    match phase {
        DictationPhase::FetchingSecret => 5,
        DictationPhase::Enhancing => 4,
        DictationPhase::Inserting => 3,
        DictationPhase::ReadingClock => 2,
        DictationPhase::RecordingHistory => 1,
        DictationPhase::Done => 0,
    }
}

/// The event that answers the step taken in a phase.
pub open spec fn answers(phase: DictationPhase, event: DictationEvent) -> bool {
    match phase {
        DictationPhase::FetchingSecret => event is SecretFetched,
        DictationPhase::Enhancing => event is Enhanced,
        DictationPhase::Inserting => event is Inserted,
        DictationPhase::ReadingClock => event is ClockRead,
        DictationPhase::RecordingHistory => event is HistoryRecorded,
        DictationPhase::Done => false,
    }
}

/// What comes once the final text is known: insertion when asked for,
/// else the history when it is kept, else the end.
pub open spec fn phase_after_text(settings: AppSettings, insert: bool) -> DictationPhase {
    if insert {
        DictationPhase::Inserting
    } else {
        phase_after_insertion(settings)
    }
}

/// What comes once insertion is over: the clock is read for the history
/// entry when the history is kept.
pub open spec fn phase_after_insertion(settings: AppSettings) -> DictationPhase {
    if settings.history.enabled {
        DictationPhase::ReadingClock
    } else {
        DictationPhase::Done
    }
}

/// Whether the dictated text reached the target application.
pub open spec fn was_inserted(insertion: Option<InsertionResult>) -> bool {
    insertion matches Some(r) && r.success
}

/// The history entry of a dictation.
pub open spec fn is_history_entry_of(flow: DictationFlow, entry: HistoryEntry) -> bool {
    &&& entry.raw_transcript@ == flow.transcript().raw_text@
    &&& entry.final_text@ == flow.final_text()
    &&& entry.model_id@ == flow.transcript().model_id@
    &&& entry.enhancement_provider == (match flow.enhancement() {
        Some(r) => Some(r.provider),
        None => None,
    })
    &&& entry.inserted == was_inserted(flow.insertion())
    &&& entry.target_app is None
    &&& flow.history_id() == Some(entry.id)
}

/// The step that a phase asks for.
pub open spec fn asks_for(flow: DictationFlow, action: DictationAction) -> bool {
    match flow.phase() {
        DictationPhase::FetchingSecret => action matches DictationAction::FetchSecret(k) && k@
            == provider_key_of(flow.settings().enhancement.provider),
        DictationPhase::Enhancing => action matches DictationAction::Enhance { transcript, api_key }
            && transcript@ == flow.transcript().raw_text@,
        DictationPhase::Inserting => action matches DictationAction::Insert { text, settings }
            && text@ == flow.final_text() && settings == flow.settings().insertion,
        DictationPhase::ReadingClock => action is ReadClock,
        DictationPhase::RecordingHistory => action matches DictationAction::RecordHistory {
            entry,
            max_items,
        } && is_history_entry_of(flow, entry) && max_items == flow.settings().history.max_items,
        DictationPhase::Done => action is Finished,
    }
}

/// The result that a dictation ends with.
pub open spec fn is_result_of(flow: DictationFlow, r: DictationResult) -> bool {
    &&& r.transcript == flow.transcript()
    &&& r.final_text@ == flow.final_text()
    &&& r.enhancement == flow.enhancement()
    &&& (match r.enhancement_error {
        Some(m) => flow.enhancement_error() == Some(m@),
        None => flow.enhancement_error() is None,
    })
    &&& r.insertion == flow.insertion()
    &&& r.history_id == flow.history_id()
}

/// The two flows hold the same text outcome: final text, enhancement and
/// enhancement error.
pub open spec fn same_text_outcome(a: DictationFlow, b: DictationFlow) -> bool {
    &&& a.final_text() == b.final_text()
    &&& a.enhancement() == b.enhancement()
    &&& a.enhancement_error() == b.enhancement_error()
}

/// What a successful end reports of the request: an insertion exactly when
/// one was asked for, and a history id exactly when the history is kept.
pub open spec fn ends_as_asked(flow: DictationFlow, r: DictationResult) -> bool {
    &&& (r.insertion is Some <==> flow.insert())
    &&& (r.history_id is Some <==> flow.settings().history.enabled)
}

/// The action of a phase reached after the text or the insertion: the
/// history step, or the end with the dictation's result.
pub open spec fn continues(flow: DictationFlow, action: DictationAction) -> bool {
    &&& asks_for(flow, action)
    &&& flow.phase() == DictationPhase::Done ==> (action matches DictationAction::Finished(Ok(r))
        && is_result_of(flow, r))
}

/// Finishing a transcribed dictation.
#[derive(Debug)]
pub struct DictationFlow {
    settings: AppSettings,
    insert: bool,
    transcript: TranscriptResult,
    final_text: String,
    enhancement: Option<EnhancementResult>,
    enhancement_error: Option<String>,
    insertion: Option<InsertionResult>,
    history_id: Option<u128>,
    phase: DictationPhase,
}

impl DictationFlow {
    pub closed spec fn settings(&self) -> AppSettings {
        self.settings
    }

    pub closed spec fn insert(&self) -> bool {
        self.insert
    }

    pub closed spec fn transcript(&self) -> TranscriptResult {
        self.transcript
    }

    pub closed spec fn final_text(&self) -> Seq<char> {
        self.final_text@
    }

    pub closed spec fn enhancement(&self) -> Option<EnhancementResult> {
        self.enhancement
    }

    pub closed spec fn enhancement_error(&self) -> Option<Seq<char>> {
        match self.enhancement_error {
            Some(m) => Some(m@),
            None => None,
        }
    }

    pub closed spec fn insertion(&self) -> Option<InsertionResult> {
        self.insertion
    }

    pub closed spec fn history_id(&self) -> Option<u128> {
        self.history_id
    }

    pub closed spec fn phase(&self) -> DictationPhase {
        self.phase
    }

    /// The fields hold what the phase reached implies.
    pub open spec fn well_formed(&self) -> bool {
        &&& self.phase() != DictationPhase::RecordingHistory && self.phase() != DictationPhase::Done
            ==> self.history_id() is None
        &&& self.phase() == DictationPhase::RecordingHistory ==> self.history_id() is Some
        &&& (self.phase() == DictationPhase::FetchingSecret || self.phase()
            == DictationPhase::Enhancing) ==> {
            &&& self.enhancement() is None
            &&& self.enhancement_error() is None
            &&& self.final_text() == self.transcript().raw_text@
        }
        &&& (self.phase() == DictationPhase::FetchingSecret || self.phase()
            == DictationPhase::Enhancing || self.phase() == DictationPhase::Inserting)
            ==> self.insertion() is None
        &&& self.phase() == DictationPhase::Inserting ==> self.insert()
        &&& !self.insert() ==> self.insertion() is None
        &&& !self.settings().history.enabled ==> self.history_id() is None
        &&& (self.phase() == DictationPhase::ReadingClock || self.phase()
            == DictationPhase::RecordingHistory) ==> {
            &&& self.settings().history.enabled
            &&& (self.insertion() is Some <==> self.insert())
        }
    }

    /// Ends with the dictation's result.
    fn finish(&mut self) -> (a: DictationAction)
        ensures
            *final(self) == (DictationFlow { phase: DictationPhase::Done, ..*old(self) }),
            a matches DictationAction::Finished(Ok(r)) && is_result_of(*final(self), r),
    {
        self.phase = DictationPhase::Done;
        let enhancement = match &self.enhancement {
            Some(r) => Some(r.duplicate()),
            None => None,
        };
        let enhancement_error = match &self.enhancement_error {
            Some(m) => Some(m.clone()),
            None => None,
        };
        let insertion = match &self.insertion {
            Some(r) => Some(r.duplicate()),
            None => None,
        };
        DictationAction::Finished(
            Ok(
                DictationResult {
                    transcript: self.transcript.duplicate(),
                    final_text: self.final_text.clone(),
                    enhancement,
                    enhancement_error,
                    insertion,
                    history_id: self.history_id,
                },
            ),
        )
    }

    /// Moves on once insertion is over: read the clock for the history entry
    /// when the history is kept, else end.
    fn after_insertion(&mut self) -> (a: DictationAction)
        requires
            old(self).history_id() is None,
            old(self).insertion() is Some <==> old(self).insert(),
        ensures
            final(self).settings() == old(self).settings(),
            final(self).insert() == old(self).insert(),
            final(self).transcript() == old(self).transcript(),
            final(self).final_text() == old(self).final_text(),
            final(self).enhancement() == old(self).enhancement(),
            final(self).enhancement_error() == old(self).enhancement_error(),
            final(self).insertion() == old(self).insertion(),
            final(self).history_id() is None,
            final(self).phase() == phase_after_insertion(old(self).settings()),
            final(self).well_formed(),
            continues(*final(self), a),
            a matches DictationAction::Finished(Ok(r)) ==> ends_as_asked(*final(self), r),
    {
        if self.settings.history.enabled {
            self.phase = DictationPhase::ReadingClock;
            DictationAction::ReadClock
        } else {
            self.finish()
        }
    }

    /// Makes the history entry, created at the time read from the clock,
    /// and asks for it to be recorded.
    fn record_entry(&mut self, created_at: EntryTime) -> (a: DictationAction)
        requires
            old(self).well_formed(),
            old(self).phase() == DictationPhase::ReadingClock,
        ensures
            final(self).settings() == old(self).settings(),
            final(self).insert() == old(self).insert(),
            final(self).transcript() == old(self).transcript(),
            same_text_outcome(*final(self), *old(self)),
            final(self).insertion() == old(self).insertion(),
            final(self).phase() == DictationPhase::RecordingHistory,
            final(self).well_formed(),
            asks_for(*final(self), a),
            a matches DictationAction::RecordHistory { entry, max_items } && entry.created_at
                == created_at,
    {
        let provider = match &self.enhancement {
            Some(r) => Some(r.provider.clone()),
            None => None,
        };
        let inserted = match &self.insertion {
            Some(r) => r.success,
            None => false,
        };
        let entry = HistoryEntry::new(
            self.transcript.raw_text.as_str(),
            self.final_text.as_str(),
            self.transcript.model_id.as_str(),
            provider,
            inserted,
            created_at,
        );
        self.history_id = Some(entry.id);
        self.phase = DictationPhase::RecordingHistory;
        DictationAction::RecordHistory { entry, max_items: self.settings.history.max_items }
    }

    /// Moves on once the final text is known: insert it when asked to,
    /// else go on as after insertion.
    fn after_text(&mut self) -> (a: DictationAction)
        requires
            old(self).history_id() is None,
            old(self).insertion() is None,
        ensures
            final(self).settings() == old(self).settings(),
            final(self).insert() == old(self).insert(),
            final(self).transcript() == old(self).transcript(),
            final(self).final_text() == old(self).final_text(),
            final(self).enhancement() == old(self).enhancement(),
            final(self).enhancement_error() == old(self).enhancement_error(),
            final(self).insertion() is None,
            final(self).history_id() is None,
            final(self).phase() == phase_after_text(old(self).settings(), old(self).insert()),
            final(self).well_formed(),
            continues(*final(self), a),
            a matches DictationAction::Finished(Ok(r)) ==> ends_as_asked(*final(self), r),
    {
        if self.insert {
            self.phase = DictationPhase::Inserting;
            DictationAction::Insert {
                text: self.final_text.clone(),
                settings: self.settings.insertion,
            }
        } else {
            self.after_insertion()
        }
    }

    /// Asks for the transcript to be enhanced with the fetched key.
    fn begin_enhancement(&mut self, key: Option<String>) -> (a: DictationAction)
        ensures
            *final(self) == (DictationFlow { phase: DictationPhase::Enhancing, ..*old(self) }),
            old(self).well_formed() && old(self).phase() == DictationPhase::FetchingSecret
                ==> final(self).well_formed(),
            a matches DictationAction::Enhance { transcript, api_key } && transcript@ == old(
                self,
            ).transcript().raw_text@ && api_key == key,
    {
        self.phase = DictationPhase::Enhancing;
        DictationAction::Enhance { transcript: self.transcript.raw_text.clone(), api_key: key }
    }

    /// Starts finishing a dictation whose recording was transcribed: fetch
    /// the provider's API key when enhancement is on, else go straight on
    /// with the raw transcript as the final text.
    pub fn start(settings: AppSettings, transcript: TranscriptResult, insert: bool) -> (res: (
        DictationFlow,
        DictationAction,
    ))
        ensures
            res.0.settings() == settings,
            res.0.insert() == insert,
            res.0.transcript() == transcript,
            res.0.final_text() == transcript.raw_text@,
            res.0.enhancement() is None,
            res.0.enhancement_error() is None,
            res.0.insertion() is None,
            res.0.phase() == if settings.enhancement.enabled {
                DictationPhase::FetchingSecret
            } else {
                phase_after_text(settings, insert)
            },
            res.0.history_id() is None,
            res.1 matches DictationAction::Finished(Ok(r)) ==> ends_as_asked(res.0, r),
            res.0.well_formed(),
            continues(res.0, res.1),
    {
        let final_text = transcript.raw_text.clone();
        let mut flow = DictationFlow {
            settings,
            insert,
            transcript,
            final_text,
            enhancement: None,
            enhancement_error: None,
            insertion: None,
            history_id: None,
            phase: DictationPhase::FetchingSecret,
        };
        if flow.settings.enhancement.enabled {
            let key = provider_key(&flow.settings.enhancement.provider);
            (flow, DictationAction::FetchSecret(key))
        } else {
            let action = flow.after_text();
            (flow, action)
        }
    }

    /// The next step, given what the current one returned. A failure to
    /// insert or to record the history ends the dictation with its message;
    /// a failed enhancement, including a failure to read the provider's API
    /// key, leaves the raw transcript as the final text and its message as
    /// the enhancement error.
    pub fn advance(&mut self, event: DictationEvent) -> (a: DictationAction)
        requires
            answers(old(self).phase(), event),
            old(self).well_formed(),
        ensures
            final(self).settings() == old(self).settings(),
            final(self).insert() == old(self).insert(),
            final(self).transcript() == old(self).transcript(),
            final(self).well_formed(),
            phase_rank(final(self).phase()) < phase_rank(old(self).phase()),
            a matches DictationAction::Finished(Ok(r)) ==> ends_as_asked(*final(self), r),
            match event {
                DictationEvent::SecretFetched(Ok(key)) => final(self).phase()
                    == DictationPhase::Enhancing && same_text_outcome(*final(self), *old(self))
                    && final(self).insertion() == old(self).insertion()
                    && final(self).history_id() is None && (a matches DictationAction::Enhance {
                    transcript,
                    api_key,
                } && transcript@ == old(self).transcript().raw_text@ && api_key == key),
                DictationEvent::Enhanced(Ok(r)) => final(self).final_text() == r.text@
                    && final(self).enhancement() == Some(r) && final(self).enhancement_error()
                    is None && final(self).insertion() == old(self).insertion()
                    && final(self).history_id() is None && final(self).phase() == phase_after_text(
                    old(self).settings(),
                    old(self).insert(),
                ) && continues(*final(self), a),
                DictationEvent::Enhanced(Err(e)) => final(self).final_text() == old(
                    self,
                ).transcript().raw_text@ && final(self).enhancement() is None && final(self).enhancement_error()
                    is Some && is_enhancement_message(e, final(self).enhancement_error()->0)
                    && final(self).insertion() == old(self).insertion() && final(self).history_id()
                    is None && final(self).phase() == phase_after_text(
                    old(self).settings(),
                    old(self).insert(),
                ) && continues(*final(self), a),
                DictationEvent::Inserted(Ok(r)) => same_text_outcome(*final(self), *old(self))
                    && final(self).insertion() == Some(r) && final(self).history_id() == old(
                    self,
                ).history_id() && final(self).phase() == phase_after_insertion(
                    old(self).settings(),
                ) && continues(*final(self), a),
                DictationEvent::ClockRead(t) => same_text_outcome(*final(self), *old(self))
                    && final(self).insertion() == old(self).insertion() && final(self).phase()
                    == DictationPhase::RecordingHistory && asks_for(*final(self), a) && (
                a matches DictationAction::RecordHistory { entry, max_items } && entry.created_at
                    == t),
                DictationEvent::HistoryRecorded(Ok(())) => final(self).phase() == DictationPhase::Done
                    && same_text_outcome(*final(self), *old(self)) && final(self).insertion()
                    == old(self).insertion() && final(self).history_id() == old(self).history_id()
                    && continues(*final(self), a),
                DictationEvent::SecretFetched(Err(m)) => final(self).final_text() == old(
                    self,
                ).transcript().raw_text@ && final(self).enhancement() is None
                    && final(self).enhancement_error() == Some(m@) && final(self).insertion()
                    == old(self).insertion() && final(self).history_id() is None
                    && final(self).phase() == phase_after_text(
                    old(self).settings(),
                    old(self).insert(),
                ) && continues(*final(self), a),
                DictationEvent::Inserted(Err(m)) => final(self).phase() == DictationPhase::Done && (
                a matches DictationAction::Finished(Err(n)) && n == m),
                DictationEvent::HistoryRecorded(Err(m)) => final(self).phase() == DictationPhase::Done
                    && (a matches DictationAction::Finished(Err(n)) && n == m),
            },
    {
        match event {
            DictationEvent::SecretFetched(Ok(key)) => {
                self.begin_enhancement(key)
            },
            DictationEvent::Enhanced(Ok(r)) => {
                self.final_text = r.text.clone();
                self.enhancement = Some(r);
                self.after_text()
            },
            DictationEvent::Enhanced(Err(e)) => {
                self.enhancement_error = Some(e.message());
                self.after_text()
            },
            DictationEvent::Inserted(Ok(r)) => {
                self.insertion = Some(r);
                self.after_insertion()
            },
            DictationEvent::ClockRead(t) => self.record_entry(t),
            DictationEvent::HistoryRecorded(Ok(())) => self.finish(),
            DictationEvent::SecretFetched(Err(m)) => {
                self.enhancement_error = Some(m);
                self.after_text()
            },
            DictationEvent::Inserted(Err(m)) => {
                self.phase = DictationPhase::Done;
                DictationAction::Finished(Err(m))
            },
            DictationEvent::HistoryRecorded(Err(m)) => {
                self.phase = DictationPhase::Done;
                DictationAction::Finished(Err(m))
            },
        }
    }
}

} // verus!
