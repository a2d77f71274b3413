//! Inserting dictated text into the focused application: typing it with
//! `SendInput`, or pasting it through the clipboard and restoring the text
//! that the clipboard held before.
//!
//! The platform work (typing, clipboard access, the paste shortcut, the
//! pause before restoring) is done by the caller; an [`InsertionFlow`]
//! decides each next step from what the previous one returned.
use vstd::prelude::*;
use crate::settings::{TextInsertionMode, TextInsertionSettings};
use crate::text::{decimal, decimal_string, push_str};

verus! {

#[derive(Debug, Clone)]
pub struct InsertionResult {
    pub attempted_mode: TextInsertionMode,
    pub success: bool,
    pub inserted_characters: usize,
    pub fallback_used: bool,
    pub message: String,
}

impl InsertionResult {
    pub fn duplicate(&self) -> (r: Self)
        ensures
            r == *self,
    {
        InsertionResult {
            attempted_mode: self.attempted_mode,
            success: self.success,
            inserted_characters: self.inserted_characters,
            fallback_used: self.fallback_used,
            message: self.message.clone(),
        }
    }
}

#[derive(Debug)]
pub enum TextInsertionError {
    UnsupportedPlatform,
    SendInputFailed { sent: u32, expected: u32 },
    ClipboardUnsupportedPlatform,
    Clipboard { context: &'static str, source: std::io::Error },
    FallbackAfterSendInputFailed { primary: String, fallback: String },
}

/// `m` is the message of `e`. The message of a clipboard failure ends with
/// the operating system's description of it, which is not known here.
pub open spec fn is_message_of(e: TextInsertionError, m: Seq<char>) -> bool {
    match e {
        TextInsertionError::UnsupportedPlatform => m
            == "text insertion is only available on Windows in this build"@,
        TextInsertionError::SendInputFailed { sent, expected } => m == "SendInput failed after sending "@
            + decimal(sent as nat) + " of "@ + decimal(expected as nat) + " input events"@,
        TextInsertionError::ClipboardUnsupportedPlatform => m
            == "clipboard fallback is only available on Windows in this build"@,
        TextInsertionError::Clipboard { context, source } => {
            let prefix = "clipboard fallback failed while "@ + context@ + ": "@;
            m.len() >= prefix.len() && m.subrange(0, prefix.len() as int) == prefix
        },
        TextInsertionError::FallbackAfterSendInputFailed { primary, fallback } => m
            == "SendInput failed ("@ + primary@ + "); clipboard fallback also failed ("@ + fallback@
            + ")"@,
    }
}

impl TextInsertionError {
    pub fn message(&self) -> (m: String)
        ensures
            is_message_of(*self, m@),
    {
        match self {
            TextInsertionError::UnsupportedPlatform => String::from_str(
                "text insertion is only available on Windows in this build",
            ),
            TextInsertionError::SendInputFailed { sent, expected } => {
                let mut m = String::from_str("SendInput failed after sending ");
                let s = decimal_string(*sent as u64);
                push_str(&mut m, s.as_str());
                push_str(&mut m, " of ");
                let e = decimal_string(*expected as u64);
                push_str(&mut m, e.as_str());
                push_str(&mut m, " input events");
                m
            },
            TextInsertionError::ClipboardUnsupportedPlatform => String::from_str(
                "clipboard fallback is only available on Windows in this build",
            ),
            TextInsertionError::Clipboard { context, source } => {
                let mut m = String::from_str("clipboard fallback failed while ");
                push_str(&mut m, context);
                push_str(&mut m, ": ");
                let ghost prefix = m@;
                let detail = crate::external::io_error_message(source);
                push_str(&mut m, detail.as_str());
                assert(m@.subrange(0, prefix.len() as int) =~= prefix);
                m
            },
            TextInsertionError::FallbackAfterSendInputFailed { primary, fallback } => {
                let mut m = String::from_str("SendInput failed (");
                push_str(&mut m, primary.as_str());
                push_str(&mut m, "); clipboard fallback also failed (");
                push_str(&mut m, fallback.as_str());
                push_str(&mut m, ")");
                m
            },
        }
    }
}

/// Pause before the previous clipboard text is put back: the typing delay,
/// but at least 120 ms.
pub open spec fn restore_delay_ms(settings: TextInsertionSettings) -> u64 {
    if settings.typing_delay_ms < 120 {
        120
    } else {
        settings.typing_delay_ms
    }
}

/// The step of an insertion that the caller performs next.
#[derive(Debug)]
pub enum InsertionAction {
    /// Type the text as keyboard input, pausing after each character.
    TypeText { text: String, typing_delay_ms: u64 },
    /// Read the text that the clipboard holds, if any.
    ReadClipboard,
    /// Put this text on the clipboard.
    WriteClipboard(String),
    /// Press the paste shortcut.
    SendPaste,
    /// Pause for this many milliseconds.
    Wait(u64),
    /// The insertion is over.
    Finished(Result<InsertionResult, TextInsertionError>),
}

/// What a performed step returned.
#[derive(Debug)]
pub enum InsertionEvent {
    /// Typing ended: the number of characters typed, or why it failed.
    Typed(Result<usize, TextInsertionError>),
    /// The clipboard's text, if it held any.
    ClipboardRead(Result<Option<String>, TextInsertionError>),
    ClipboardWritten(Result<(), TextInsertionError>),
    PasteSent(Result<(), TextInsertionError>),
    Waited,
}

/// Where an insertion stands.
#[derive(Debug, Clone, Copy, PartialEq, Eq, Structural)]
pub enum InsertionPhase {
    Typing,
    ReadingClipboard,
    WritingText,
    Pasting,
    Waiting,
    Restoring,
    Done,
}

/// How many steps at most remain from a phase: every step moves the flow
/// to a phase of lower rank, so an insertion ends after at most six.
pub open spec fn phase_rank(phase: InsertionPhase) -> nat {
    match phase {
        InsertionPhase::Typing => 6,
        InsertionPhase::ReadingClipboard => 5,
        InsertionPhase::WritingText => 4,
        InsertionPhase::Pasting => 3,
        InsertionPhase::Waiting => 2,
        InsertionPhase::Restoring => 1,
        InsertionPhase::Done => 0,
    }
}

/// The event that answers the step taken in a phase.
pub open spec fn answers(phase: InsertionPhase, event: InsertionEvent) -> bool {
    match phase {
        InsertionPhase::Typing => event is Typed,
        InsertionPhase::ReadingClipboard => event is ClipboardRead,
        InsertionPhase::WritingText => event is ClipboardWritten,
        InsertionPhase::Pasting => event is PasteSent,
        InsertionPhase::Waiting => event is Waited,
        InsertionPhase::Restoring => event is ClipboardWritten,
        InsertionPhase::Done => false,
    }
}

/// The step that a phase asks for.
pub open spec fn asks_for(
    flow: InsertionFlow,
    action: InsertionAction,
) -> bool {
    match flow.phase() {
        InsertionPhase::Typing => action matches InsertionAction::TypeText { text, typing_delay_ms }
            && text@ == flow.text() && typing_delay_ms == flow.settings().typing_delay_ms,
        InsertionPhase::ReadingClipboard => action is ReadClipboard,
        InsertionPhase::WritingText => action matches InsertionAction::WriteClipboard(t) && t@
            == flow.text(),
        InsertionPhase::Pasting => action is SendPaste,
        InsertionPhase::Waiting => action matches InsertionAction::Wait(ms) && ms
            == restore_delay_ms(flow.settings()),
        InsertionPhase::Restoring => flow.previous() matches Some(p) && action matches InsertionAction::WriteClipboard(
            t,
        ) && t@ == p,
        InsertionPhase::Done => action is Finished,
    }
}

/// The clipboard paste message once the paste went through.
pub open spec fn paste_message(settings: TextInsertionSettings, previous: Option<Seq<char>>) -> Seq<
    char,
> {
    if !settings.restore_clipboard {
        "Inserted with clipboard paste"@
    } else if previous is Some {
        "Inserted with clipboard paste"@ + "; restored previous clipboard text"@
    } else {
        "Inserted with clipboard paste"@
            + "; no prior text clipboard content was available to restore"@
    }
}

/// The result of a successful clipboard paste, reported as a fallback from
/// typing when typing failed first.
pub open spec fn is_paste_result(flow: InsertionFlow, r: InsertionResult) -> bool {
    let msg = paste_message(flow.settings(), flow.previous());
    &&& r.success
    &&& r.inserted_characters == flow.text().len()
    &&& r.fallback_used
    &&& match flow.primary() {
        None => r.attempted_mode == TextInsertionMode::ClipboardFallback && r.message@ == msg,
        Some(p) => r.attempted_mode == TextInsertionMode::SendInput && r.message@
            == "SendInput failed ("@ + p + "); "@ + msg,
    }
}

/// The error that ends a clipboard paste that failed with `e`: `e` itself,
/// or both failures when typing had failed first.
pub open spec fn is_paste_failure(flow: InsertionFlow, e: TextInsertionError, out: TextInsertionError) -> bool {
    match flow.primary() {
        None => out == e,
        Some(p) => out matches TextInsertionError::FallbackAfterSendInputFailed { primary, fallback }
            && primary@ == p && is_message_of(e, fallback@),
    }
}

/// An insertion in progress.
#[derive(Debug)]
pub struct InsertionFlow {
    text: String,
    settings: TextInsertionSettings,
    phase: InsertionPhase,
    /// The message of the typing failure, once typing failed.
    primary: Option<String>,
    /// The clipboard text read before pasting.
    previous: Option<String>,
}

impl InsertionFlow {
    pub closed spec fn text(&self) -> Seq<char> {
        self.text@
    }

    pub closed spec fn settings(&self) -> TextInsertionSettings {
        self.settings
    }

    pub closed spec fn phase(&self) -> InsertionPhase {
        self.phase
    }

    pub closed spec fn primary(&self) -> Option<Seq<char>> {
        match self.primary {
            Some(p) => Some(p@),
            None => None,
        }
    }

    pub closed spec fn previous(&self) -> Option<Seq<char>> {
        match self.previous {
            Some(p) => Some(p@),
            None => None,
        }
    }

    /// The first step of pasting through the clipboard.
    fn start_paste(&mut self) -> (a: InsertionAction)
        requires
            old(self).phase() == InsertionPhase::Typing || old(self).phase()
                == InsertionPhase::Done,
        ensures
            final(self).text() == old(self).text(),
            final(self).settings() == old(self).settings(),
            final(self).primary() == old(self).primary(),
            final(self).previous() is None,
            final(self).phase() == if old(self).settings().restore_clipboard {
                InsertionPhase::ReadingClipboard
            } else {
                InsertionPhase::WritingText
            },
            asks_for(*final(self), a),
    {
        self.previous = None;
        if self.settings.restore_clipboard {
            self.phase = InsertionPhase::ReadingClipboard;
            InsertionAction::ReadClipboard
        } else {
            self.phase = InsertionPhase::WritingText;
            InsertionAction::WriteClipboard(self.text.clone())
        }
    }

    /// Ends the flow with the successful paste.
    fn finish_paste(&mut self) -> (a: InsertionAction)
        ensures
            final(self).text() == old(self).text(),
            final(self).settings() == old(self).settings(),
            final(self).primary() == old(self).primary(),
            final(self).previous() == old(self).previous(),
            final(self).phase() == InsertionPhase::Done,
            a matches InsertionAction::Finished(Ok(r)) && is_paste_result(*old(self), r),
    {
        let mut message = String::from_str("Inserted with clipboard paste");
        if self.settings.restore_clipboard {
            if self.previous.is_some() {
                push_str(&mut message, "; restored previous clipboard text");
            } else {
                push_str(
                    &mut message,
                    "; no prior text clipboard content was available to restore",
                );
            }
        }
        let count = self.text.as_str().unicode_len();
        self.phase = InsertionPhase::Done;
        let result = match &self.primary {
            None => InsertionResult {
                attempted_mode: TextInsertionMode::ClipboardFallback,
                success: true,
                inserted_characters: count,
                fallback_used: true,
                message,
            },
            Some(p) => {
                let mut full = String::from_str("SendInput failed (");
                push_str(&mut full, p.as_str());
                push_str(&mut full, "); ");
                push_str(&mut full, message.as_str());
                InsertionResult {
                    attempted_mode: TextInsertionMode::SendInput,
                    success: true,
                    inserted_characters: count,
                    fallback_used: true,
                    message: full,
                }
            },
        };
        InsertionAction::Finished(Ok(result))
    }

    /// Ends the flow with a failed paste.
    fn fail_paste(&mut self, e: TextInsertionError) -> (a: InsertionAction)
        ensures
            final(self).text() == old(self).text(),
            final(self).settings() == old(self).settings(),
            final(self).primary() == old(self).primary(),
            final(self).previous() == old(self).previous(),
            final(self).phase() == InsertionPhase::Done,
            a matches InsertionAction::Finished(Err(out)) && is_paste_failure(*old(self), e, out),
    {
        self.phase = InsertionPhase::Done;
        match &self.primary {
            None => InsertionAction::Finished(Err(e)),
            Some(p) => {
                let fallback = e.message();
                InsertionAction::Finished(
                    Err(
                        TextInsertionError::FallbackAfterSendInputFailed {
                            primary: p.clone(),
                            fallback,
                        },
                    ),
                )
            },
        }
    }

    /// The next step, given what the current one returned.
    pub fn advance(&mut self, event: InsertionEvent) -> (a: InsertionAction)
        requires
            answers(old(self).phase(), event),
        ensures
            final(self).text() == old(self).text(),
            final(self).settings() == old(self).settings(),
            asks_for(*final(self), a),
            phase_rank(final(self).phase()) < phase_rank(old(self).phase()),
            match event {
                InsertionEvent::Typed(Ok(n)) => final(self).phase() == InsertionPhase::Done
                    && (a matches InsertionAction::Finished(Ok(r)) && r.attempted_mode
                    == TextInsertionMode::SendInput && r.success && r.inserted_characters == n
                    && !r.fallback_used && r.message@ == "Inserted with SendInput"@),
                InsertionEvent::Typed(Err(e)) => is_message_of(e, final(self).primary()->0)
                    && final(self).primary() is Some && final(self).previous() is None
                    && final(self).phase() == if old(self).settings().restore_clipboard {
                        InsertionPhase::ReadingClipboard
                    } else {
                        InsertionPhase::WritingText
                    },
                InsertionEvent::ClipboardRead(Ok(prev)) => final(self).phase()
                    == InsertionPhase::WritingText && final(self).primary() == old(self).primary()
                    && final(self).previous() == (match prev {
                        Some(p) => Some(p@),
                        None => None::<Seq<char>>,
                    }),
                InsertionEvent::ClipboardWritten(Ok(())) => final(self).primary() == old(
                    self,
                ).primary() && final(self).previous() == old(self).previous() && if old(
                    self,
                ).phase() == InsertionPhase::WritingText {
                    final(self).phase() == InsertionPhase::Pasting
                } else {
                    final(self).phase() == InsertionPhase::Done && (a matches InsertionAction::Finished(
                        Ok(r),
                    ) && is_paste_result(*old(self), r))
                },
                InsertionEvent::PasteSent(Ok(())) => final(self).primary() == old(self).primary()
                    && final(self).previous() == old(self).previous() && if old(
                    self,
                ).settings().restore_clipboard {
                    final(self).phase() == InsertionPhase::Waiting
                } else {
                    final(self).phase() == InsertionPhase::Done && (a matches InsertionAction::Finished(
                        Ok(r),
                    ) && is_paste_result(*old(self), r))
                },
                InsertionEvent::Waited => final(self).primary() == old(self).primary()
                    && final(self).previous() == old(self).previous() && if old(
                    self,
                ).previous() is Some {
                    final(self).phase() == InsertionPhase::Restoring
                } else {
                    final(self).phase() == InsertionPhase::Done && (a matches InsertionAction::Finished(
                        Ok(r),
                    ) && is_paste_result(*old(self), r))
                },
                InsertionEvent::ClipboardRead(Err(e)) => final(self).phase() == InsertionPhase::Done
                    && (a matches InsertionAction::Finished(Err(out)) && is_paste_failure(
                    *old(self),
                    e,
                    out,
                )),
                InsertionEvent::ClipboardWritten(Err(e)) => final(self).phase()
                    == InsertionPhase::Done && (a matches InsertionAction::Finished(Err(out))
                    && is_paste_failure(*old(self), e, out)),
                InsertionEvent::PasteSent(Err(e)) => final(self).phase() == InsertionPhase::Done
                    && (a matches InsertionAction::Finished(Err(out)) && is_paste_failure(
                    *old(self),
                    e,
                    out,
                )),
            },
    {
        match event {
            InsertionEvent::Typed(Ok(n)) => {
                self.phase = InsertionPhase::Done;
                InsertionAction::Finished(
                    Ok(
                        InsertionResult {
                            attempted_mode: TextInsertionMode::SendInput,
                            success: true,
                            inserted_characters: n,
                            fallback_used: false,
                            message: String::from_str("Inserted with SendInput"),
                        },
                    ),
                )
            },
            InsertionEvent::Typed(Err(e)) => {
                self.primary = Some(e.message());
                self.start_paste()
            },
            InsertionEvent::ClipboardRead(Ok(prev)) => {
                self.previous = prev;
                self.phase = InsertionPhase::WritingText;
                InsertionAction::WriteClipboard(self.text.clone())
            },
            InsertionEvent::ClipboardWritten(Ok(())) => {
                if self.phase == InsertionPhase::WritingText {
                    self.phase = InsertionPhase::Pasting;
                    InsertionAction::SendPaste
                } else {
                    self.finish_paste()
                }
            },
            InsertionEvent::PasteSent(Ok(())) => {
                if self.settings.restore_clipboard {
                    self.phase = InsertionPhase::Waiting;
                    let ms: u64 = if self.settings.typing_delay_ms < 120 {
                        120
                    } else {
                        self.settings.typing_delay_ms
                    };
                    InsertionAction::Wait(ms)
                } else {
                    self.finish_paste()
                }
            },
            InsertionEvent::Waited => {
                match &self.previous {
                    Some(p) => {
                        let restore = p.clone();
                        self.phase = InsertionPhase::Restoring;
                        InsertionAction::WriteClipboard(restore)
                    },
                    None => self.finish_paste(),
                }
            },
            InsertionEvent::ClipboardRead(Err(e)) => self.fail_paste(e),
            InsertionEvent::ClipboardWritten(Err(e)) => self.fail_paste(e),
            InsertionEvent::PasteSent(Err(e)) => self.fail_paste(e),
        }
    }
}

#[derive(Debug, Clone, Copy)]
pub struct TextInsertionService;

impl TextInsertionService {
    /// Starts inserting `text`: empty text is a successful no-op, typing
    /// mode types first (pasting when typing fails), and clipboard mode
    /// pastes.
    pub fn insert(&self, text: &str, settings: &TextInsertionSettings) -> (res: (
        InsertionFlow,
        InsertionAction,
    ))
        ensures
            res.0.text() == text@,
            res.0.settings() == *settings,
            res.0.primary() is None,
            res.0.previous() is None,
            asks_for(res.0, res.1),
            text@.len() == 0 ==> res.0.phase() == InsertionPhase::Done && (res.1 matches InsertionAction::Finished(
                Ok(r),
            ) && r.attempted_mode == settings.mode && r.success && r.inserted_characters == 0
                && !r.fallback_used && r.message@ == "No text to insert"@),
            text@.len() > 0 && settings.mode == TextInsertionMode::SendInput ==> res.0.phase()
                == InsertionPhase::Typing,
            text@.len() > 0 && settings.mode == TextInsertionMode::ClipboardFallback ==> res.0.phase()
                == if settings.restore_clipboard {
                InsertionPhase::ReadingClipboard
            } else {
                InsertionPhase::WritingText
            },
    {
        let mut flow = InsertionFlow {
            text: String::from_str(text),
            settings: *settings,
            phase: InsertionPhase::Done,
            primary: None,
            previous: None,
        };
        if text.is_empty() {
            let done = InsertionAction::Finished(
                Ok(
                    InsertionResult {
                        attempted_mode: settings.mode,
                        success: true,
                        inserted_characters: 0,
                        fallback_used: false,
                        message: String::from_str("No text to insert"),
                    },
                ),
            );
            return (flow, done);
        }
        match settings.mode {
            TextInsertionMode::SendInput => {
                flow.phase = InsertionPhase::Typing;
                let action = InsertionAction::TypeText {
                    text: String::from_str(text),
                    typing_delay_ms: settings.typing_delay_ms,
                };
                (flow, action)
            },
            TextInsertionMode::ClipboardFallback => {
                let action = flow.start_paste();
                (flow, action)
            },
        }
    }
}

} // verus!
