use fluid_voice_windows::history::{EntryTime, HistoryEntry, HistoryStore};

fn entry(text: &str, seconds: i64, nanos: u32) -> HistoryEntry {
    HistoryEntry::new(text, text, "m", None, false, EntryTime { seconds, nanos })
}

#[test]
fn append_enforces_limit_newest_first() {
    let store = HistoryStore::new("fluidvoice-history-test");
    let mut stored: Vec<HistoryEntry> = Vec::new();

    stored = HistoryStore::with_appended(&stored, HistoryEntry::new("one", "one", "m", None, false, EntryTime { seconds: 1, nanos: 0 }), 2);
    stored = HistoryStore::with_appended(&stored, HistoryEntry::new("two", "two", "m", None, false, EntryTime { seconds: 2, nanos: 0 }), 2);
    stored = HistoryStore::with_appended(&stored, HistoryEntry::new("three", "three", "m", None, false, EntryTime { seconds: 3, nanos: 0 }), 2);

    let entries = HistoryStore::newest(&stored, 10);
    assert_eq!(entries.len(), 2);
    assert_eq!(entries[0].final_text, "three");
    assert_eq!(entries[1].final_text, "two");
    assert!(store.path().ends_with("history.json"));
}

#[test]
fn listing_sorts_newest_first_and_keeps_ties_in_order() {
    let stored = vec![
        entry("a", 5, 0),
        entry("b", 9, 10),
        entry("c", 5, 0),
        entry("d", 9, 2),
        entry("e", 1, 999),
    ];
    let listed = HistoryStore::newest(&stored, 10);
    let texts: Vec<&str> = listed.iter().map(|e| e.final_text.as_str()).collect();
    assert_eq!(texts, vec!["b", "d", "a", "c", "e"]);
    let limited = HistoryStore::newest(&stored, 2);
    assert_eq!(limited.len(), 2);
    assert_eq!(limited[1].final_text, "d");
}

#[test]
fn new_entry_keeps_given_fields() {
    let e = HistoryEntry::new(
        "raw",
        "final",
        "whisper-base",
        Some("groq".to_string()),
        true,
        EntryTime { seconds: 1_700_000_000, nanos: 5 },
    );
    assert_eq!(e.raw_transcript, "raw");
    assert_eq!(e.final_text, "final");
    assert_eq!(e.model_id, "whisper-base");
    assert_eq!(e.enhancement_provider.as_deref(), Some("groq"));
    assert!(e.inserted);
    assert!(e.target_app.is_none());
    assert_eq!(e.created_at, EntryTime { seconds: 1_700_000_000, nanos: 5 });
    let other = HistoryEntry::new("raw", "final", "whisper-base", None, true, e.created_at);
    assert_ne!(e.id, other.id);
}

#[test]
fn zero_limit_keeps_nothing() {
    let stored = vec![entry("a", 1, 0)];
    assert!(HistoryStore::with_appended(&stored, entry("b", 2, 0), 0).is_empty());
}

#[test]
fn older_appended_entry_is_placed_by_time() {
    let stored = vec![entry("new", 10, 0), entry("mid", 5, 0)];
    let out = HistoryStore::with_appended(&stored, entry("old", 1, 0), 3);
    let texts: Vec<&str> = out.iter().map(|e| e.final_text.as_str()).collect();
    assert_eq!(texts, vec!["new", "mid", "old"]);
}

#[test]
fn appended_entry_goes_ahead_of_equal_times_and_reads_back() {
    let stored = vec![entry("x", 5, 0), entry("y", 7, 0), entry("z", 5, 0), entry("w", 1, 0)];
    let out = HistoryStore::with_appended(&stored, entry("new", 5, 0), 3);
    let texts: Vec<&str> = out.iter().map(|e| e.final_text.as_str()).collect();
    assert_eq!(texts, vec!["y", "new", "x"]);
    let back = HistoryStore::newest(&out, usize::MAX);
    let back_texts: Vec<&str> = back.iter().map(|e| e.final_text.as_str()).collect();
    assert_eq!(back_texts, texts);
}
