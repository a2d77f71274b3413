use fluid_voice_windows::settings::{TextInsertionMode, TextInsertionSettings};
use fluid_voice_windows::text_insertion::{
    InsertionAction, InsertionEvent, InsertionResult, TextInsertionError, TextInsertionService,
};

fn finished(action: InsertionAction) -> Result<InsertionResult, TextInsertionError> {
    match action {
        InsertionAction::Finished(result) => result,
        other => panic!("expected the end, got {:?}", other),
    }
}

#[test]
fn empty_text_is_a_successful_noop() {
    let (_flow, action) = TextInsertionService.insert("", &TextInsertionSettings::default());
    let result = finished(action).unwrap();

    assert!(result.success);
    assert_eq!(result.inserted_characters, 0);
}

#[test]
fn typing_success_reports_typed_characters() {
    let (mut flow, action) = TextInsertionService.insert("héllo", &TextInsertionSettings::default());
    match action {
        InsertionAction::TypeText { text, typing_delay_ms } => {
            assert_eq!(text, "héllo");
            assert_eq!(typing_delay_ms, 0);
        }
        other => panic!("unexpected {:?}", other),
    }
    let result = finished(flow.advance(InsertionEvent::Typed(Ok(5)))).unwrap();
    assert_eq!(result.attempted_mode, TextInsertionMode::SendInput);
    assert_eq!(result.inserted_characters, 5);
    assert!(!result.fallback_used);
    assert_eq!(result.message, "Inserted with SendInput");
}

#[test]
fn failed_typing_falls_back_to_paste_and_restores_clipboard() {
    let settings = TextInsertionSettings {
        mode: TextInsertionMode::SendInput,
        typing_delay_ms: 5,
        restore_clipboard: true,
    };
    let (mut flow, _) = TextInsertionService.insert("hi there", &settings);
    let action = flow.advance(InsertionEvent::Typed(Err(TextInsertionError::SendInputFailed {
        sent: 1,
        expected: 2,
    })));
    assert!(matches!(action, InsertionAction::ReadClipboard));
    let action = flow.advance(InsertionEvent::ClipboardRead(Ok(Some("before".to_string()))));
    assert!(matches!(action, InsertionAction::WriteClipboard(ref t) if t == "hi there"));
    let action = flow.advance(InsertionEvent::ClipboardWritten(Ok(())));
    assert!(matches!(action, InsertionAction::SendPaste));
    let action = flow.advance(InsertionEvent::PasteSent(Ok(())));
    assert!(matches!(action, InsertionAction::Wait(120)));
    let action = flow.advance(InsertionEvent::Waited);
    assert!(matches!(action, InsertionAction::WriteClipboard(ref t) if t == "before"));
    let result = finished(flow.advance(InsertionEvent::ClipboardWritten(Ok(())))).unwrap();
    assert_eq!(result.attempted_mode, TextInsertionMode::SendInput);
    assert!(result.fallback_used);
    assert_eq!(result.inserted_characters, 8);
    assert_eq!(
        result.message,
        "SendInput failed (SendInput failed after sending 1 of 2 input events); Inserted with clipboard paste; restored previous clipboard text"
    );
}

#[test]
fn clipboard_mode_without_restore_pastes_only() {
    let settings = TextInsertionSettings {
        mode: TextInsertionMode::ClipboardFallback,
        typing_delay_ms: 0,
        restore_clipboard: false,
    };
    let (mut flow, action) = TextInsertionService.insert("x", &settings);
    assert!(matches!(action, InsertionAction::WriteClipboard(ref t) if t == "x"));
    assert!(matches!(flow.advance(InsertionEvent::ClipboardWritten(Ok(()))), InsertionAction::SendPaste));
    let result = finished(flow.advance(InsertionEvent::PasteSent(Ok(())))).unwrap();
    assert_eq!(result.attempted_mode, TextInsertionMode::ClipboardFallback);
    assert_eq!(result.message, "Inserted with clipboard paste");
}

#[test]
fn restore_waits_typing_delay_and_reports_empty_clipboard() {
    let settings = TextInsertionSettings {
        mode: TextInsertionMode::ClipboardFallback,
        typing_delay_ms: 300,
        restore_clipboard: true,
    };
    let (mut flow, action) = TextInsertionService.insert("x", &settings);
    assert!(matches!(action, InsertionAction::ReadClipboard));
    flow.advance(InsertionEvent::ClipboardRead(Ok(None)));
    flow.advance(InsertionEvent::ClipboardWritten(Ok(())));
    assert!(matches!(flow.advance(InsertionEvent::PasteSent(Ok(()))), InsertionAction::Wait(300)));
    let result = finished(flow.advance(InsertionEvent::Waited)).unwrap();
    assert_eq!(
        result.message,
        "Inserted with clipboard paste; no prior text clipboard content was available to restore"
    );
}

#[test]
fn both_failures_are_reported() {
    let (mut flow, _) = TextInsertionService.insert("x", &TextInsertionSettings::default());
    flow.advance(InsertionEvent::Typed(Err(TextInsertionError::UnsupportedPlatform)));
    let error = finished(flow.advance(InsertionEvent::ClipboardRead(Err(
        TextInsertionError::ClipboardUnsupportedPlatform,
    ))))
    .unwrap_err();
    assert_eq!(
        error.message(),
        "SendInput failed (text insertion is only available on Windows in this build); clipboard fallback also failed (clipboard fallback is only available on Windows in this build)"
    );
}

#[test]
fn clipboard_only_failure_is_passed_through() {
    let settings = TextInsertionSettings {
        mode: TextInsertionMode::ClipboardFallback,
        typing_delay_ms: 0,
        restore_clipboard: false,
    };
    let (mut flow, _) = TextInsertionService.insert("x", &settings);
    let error = finished(flow.advance(InsertionEvent::ClipboardWritten(Err(
        TextInsertionError::Clipboard {
            context: "setting clipboard text",
            source: std::io::Error::new(std::io::ErrorKind::Other, "busy"),
        },
    ))))
    .unwrap_err();
    assert!(error.message().starts_with("clipboard fallback failed while setting clipboard text: "));
}
