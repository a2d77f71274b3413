//! Versioned application settings, their defaults, and the migration that
//! every loaded settings file goes through.
use vstd::prelude::*;
use crate::paths::{ends_with_component, is_joined, is_verbatim, join_path};

verus! {

/// Version written into every saved settings file.
pub const CURRENT_SETTINGS_VERSION: u32 = 1;

#[derive(Debug, Clone)]
pub struct AppSettings {
    pub version: u32,
    pub language: String,
    pub input_device_id: Option<String>,
    pub hotkey: HotkeySettings,
    pub transcription: TranscriptionSettings,
    pub enhancement: EnhancementSettings,
    pub insertion: TextInsertionSettings,
    pub history: HistorySettings,
    pub startup: StartupSettings,
}

#[derive(Debug, Clone)]
pub struct HotkeySettings {
    pub enabled: bool,
    pub mode: HotkeyMode,
    pub shortcut: String,
}

#[derive(Debug, Clone, Copy, PartialEq, Eq, Structural)]
pub enum HotkeyMode {
    Toggle,
    Hold,
}

#[derive(Debug, Clone)]
pub struct TranscriptionSettings {
    pub provider: TranscriptionProviderKind,
    pub model_id: String,
    pub streaming_preview: bool,
    pub max_recording_seconds: u32,
}

#[derive(Debug, Clone, Copy, PartialEq, Eq, Structural)]
pub enum TranscriptionProviderKind {
    WhisperLocal,
}

#[derive(Debug, Clone)]
pub struct EnhancementSettings {
    pub enabled: bool,
    pub provider: EnhancementProvider,
    pub base_url: String,
    pub model: String,
    pub prompt_profile: PromptProfile,
    pub timeout_seconds: u64,
}

#[derive(Debug, Clone, Copy, PartialEq, Eq, Structural)]
pub enum EnhancementProvider {
    OpenAi,
    Groq,
    CustomOpenAiCompatible,
}

#[derive(Debug, Clone, Copy, PartialEq, Eq, Structural)]
pub enum PromptProfile {
    Default,
    CleanTranscript,
    Email,
    CodeComments,
}

#[derive(Debug, Clone, Copy, PartialEq, Eq, Structural)]
pub struct TextInsertionSettings {
    pub mode: TextInsertionMode,
    pub typing_delay_ms: u64,
    pub restore_clipboard: bool,
}

#[derive(Debug, Clone, Copy, PartialEq, Eq, Structural)]
pub enum TextInsertionMode {
    SendInput,
    ClipboardFallback,
}

#[derive(Debug, Clone, Copy, PartialEq, Eq, Structural)]
pub struct HistorySettings {
    pub enabled: bool,
    pub retain_audio: bool,
    pub max_items: usize,
}

#[derive(Debug, Clone, Copy, PartialEq, Eq, Structural)]
pub struct StartupSettings {
    pub launch_at_login: bool,
}

/// The default shortcut, `Ctrl+Alt+Space`.
pub open spec fn default_shortcut() -> Seq<char> {
    "Ctrl+Alt+Space"@
}

/// The default Whisper model, `whisper-base.en`.
pub open spec fn default_model_id() -> Seq<char> {
    "whisper-base.en"@
}

/// Recording limit used when a settings file holds none.
pub const DEFAULT_MAX_RECORDING_SECONDS: u32 = 90;

/// History length used when a settings file holds none.
pub const DEFAULT_HISTORY_MAX_ITEMS: usize = 200;

impl HotkeySettings {
    pub open spec fn is_default(self) -> bool {
        &&& self.enabled
        &&& self.mode == HotkeyMode::Toggle
        &&& self.shortcut@ == default_shortcut()
    }
}

impl Default for HotkeySettings {
    fn default() -> (s: Self)
        ensures
            s.is_default(),
    {
        HotkeySettings {
            enabled: true,
            mode: HotkeyMode::Toggle,
            shortcut: String::from_str("Ctrl+Alt+Space"),
        }
    }
}

impl Default for HotkeyMode {
    fn default() -> (m: Self)
        ensures
            m == HotkeyMode::Toggle,
    {
        HotkeyMode::Toggle
    }
}

impl TranscriptionSettings {
    pub open spec fn is_default(self) -> bool {
        &&& self.provider == TranscriptionProviderKind::WhisperLocal
        &&& self.model_id@ == default_model_id()
        &&& self.streaming_preview
        &&& self.max_recording_seconds == DEFAULT_MAX_RECORDING_SECONDS
    }
}

impl Default for TranscriptionSettings {
    fn default() -> (s: Self)
        ensures
            s.is_default(),
    {
        TranscriptionSettings {
            provider: TranscriptionProviderKind::WhisperLocal,
            model_id: String::from_str("whisper-base.en"),
            streaming_preview: true,
            max_recording_seconds: DEFAULT_MAX_RECORDING_SECONDS,
        }
    }
}

impl Default for TranscriptionProviderKind {
    fn default() -> (k: Self)
        ensures
            k == TranscriptionProviderKind::WhisperLocal,
    {
        TranscriptionProviderKind::WhisperLocal
    }
}

impl EnhancementSettings {
    pub open spec fn is_default(self) -> bool {
        &&& !self.enabled
        &&& self.provider == EnhancementProvider::OpenAi
        &&& self.base_url@ == "https://api.openai.com/v1"@
        &&& self.model@ == "gpt-4.1-mini"@
        &&& self.prompt_profile == PromptProfile::Default
        &&& self.timeout_seconds == 20
    }
}

impl Default for EnhancementSettings {
    fn default() -> (s: Self)
        ensures
            s.is_default(),
    {
        EnhancementSettings {
            enabled: false,
            provider: EnhancementProvider::OpenAi,
            base_url: String::from_str("https://api.openai.com/v1"),
            model: String::from_str("gpt-4.1-mini"),
            prompt_profile: PromptProfile::Default,
            timeout_seconds: 20,
        }
    }
}

impl Default for EnhancementProvider {
    fn default() -> (p: Self)
        ensures
            p == EnhancementProvider::OpenAi,
    {
        EnhancementProvider::OpenAi
    }
}

impl Default for PromptProfile {
    fn default() -> (p: Self)
        ensures
            p == PromptProfile::Default,
    {
        PromptProfile::Default
    }
}

impl TextInsertionSettings {
    pub open spec fn default_value() -> TextInsertionSettings {
        TextInsertionSettings {
            mode: TextInsertionMode::SendInput,
            typing_delay_ms: 0,
            restore_clipboard: true,
        }
    }
}

impl Default for TextInsertionSettings {
    fn default() -> (s: Self)
        ensures
            s == TextInsertionSettings::default_value(),
    {
        TextInsertionSettings {
            mode: TextInsertionMode::SendInput,
            typing_delay_ms: 0,
            restore_clipboard: true,
        }
    }
}

impl Default for TextInsertionMode {
    fn default() -> (m: Self)
        ensures
            m == TextInsertionMode::SendInput,
    {
        TextInsertionMode::SendInput
    }
}

impl HistorySettings {
    pub open spec fn default_value() -> HistorySettings {
        HistorySettings { enabled: true, retain_audio: false, max_items: DEFAULT_HISTORY_MAX_ITEMS }
    }
}

impl Default for HistorySettings {
    fn default() -> (s: Self)
        ensures
            s == HistorySettings::default_value(),
    {
        HistorySettings { enabled: true, retain_audio: false, max_items: DEFAULT_HISTORY_MAX_ITEMS }
    }
}

impl Default for StartupSettings {
    fn default() -> (s: Self)
        ensures
            !s.launch_at_login,
    {
        StartupSettings { launch_at_login: false }
    }
}

impl AppSettings {
    /// Every field holds its default value.
    pub open spec fn is_default(self) -> bool {
        &&& self.version == CURRENT_SETTINGS_VERSION
        &&& self.language@ == "auto"@
        &&& self.input_device_id is None
        &&& self.hotkey.is_default()
        &&& self.transcription.is_default()
        &&& self.enhancement.is_default()
        &&& self.insertion == TextInsertionSettings::default_value()
        &&& self.history == HistorySettings::default_value()
        &&& !self.startup.launch_at_login
    }

    /// The settings are in the shape that `migrate` leaves them in.
    pub open spec fn is_current(self) -> bool {
        &&& self.version == CURRENT_SETTINGS_VERSION
        &&& self.transcription.max_recording_seconds > 0
        &&& self.history.max_items > 0
        &&& self.hotkey.mode == HotkeyMode::Toggle
    }
}

impl Default for AppSettings {
    fn default() -> (s: Self)
        ensures
            s.is_default(),
    {
        AppSettings {
            version: CURRENT_SETTINGS_VERSION,
            language: String::from_str("auto"),
            input_device_id: None,
            hotkey: HotkeySettings::default(),
            transcription: TranscriptionSettings::default(),
            enhancement: EnhancementSettings::default(),
            insertion: TextInsertionSettings::default(),
            history: HistorySettings::default(),
            startup: StartupSettings::default(),
        }
    }
}

/// A copy of an optional string.
pub fn duplicate_option(s: &Option<String>) -> (r: Option<String>)
    ensures
        r == *s,
{
    match s {
        Some(v) => Some(v.clone()),
        None => None,
    }
}

impl HotkeySettings {
    pub fn duplicate(&self) -> (r: Self)
        ensures
            r == *self,
    {
        HotkeySettings { enabled: self.enabled, mode: self.mode, shortcut: self.shortcut.clone() }
    }
}

impl TranscriptionSettings {
    pub fn duplicate(&self) -> (r: Self)
        ensures
            r == *self,
    {
        TranscriptionSettings {
            provider: self.provider,
            model_id: self.model_id.clone(),
            streaming_preview: self.streaming_preview,
            max_recording_seconds: self.max_recording_seconds,
        }
    }
}

impl EnhancementSettings {
    pub fn duplicate(&self) -> (r: Self)
        ensures
            r == *self,
    {
        EnhancementSettings {
            enabled: self.enabled,
            provider: self.provider,
            base_url: self.base_url.clone(),
            model: self.model.clone(),
            prompt_profile: self.prompt_profile,
            timeout_seconds: self.timeout_seconds,
        }
    }
}

impl AppSettings {
    pub fn duplicate(&self) -> (r: Self)
        ensures
            r == *self,
    {
        AppSettings {
            version: self.version,
            language: self.language.clone(),
            input_device_id: duplicate_option(&self.input_device_id),
            hotkey: self.hotkey.duplicate(),
            transcription: self.transcription.duplicate(),
            enhancement: self.enhancement.duplicate(),
            insertion: self.insertion,
            history: self.history,
            startup: self.startup,
        }
    }
}

/// What `migrate` makes of `s`: an unknown version becomes the current one,
/// zero limits take their defaults, and hold mode falls back to toggle.
pub open spec fn migrated(s: AppSettings) -> AppSettings {
    AppSettings {
        version: if s.version == 0 || s.version > CURRENT_SETTINGS_VERSION {
            CURRENT_SETTINGS_VERSION
        } else {
            s.version
        },
        transcription: TranscriptionSettings {
            max_recording_seconds: if s.transcription.max_recording_seconds == 0 {
                DEFAULT_MAX_RECORDING_SECONDS
            } else {
                s.transcription.max_recording_seconds
            },
            ..s.transcription
        },
        history: HistorySettings {
            max_items: if s.history.max_items == 0 {
                DEFAULT_HISTORY_MAX_ITEMS
            } else {
                s.history.max_items
            },
            ..s.history
        },
        hotkey: HotkeySettings { mode: HotkeyMode::Toggle, ..s.hotkey },
        ..s
    }
}

/// Brings settings read from disk up to the current schema.
pub fn migrate(settings: AppSettings) -> (res: AppSettings)
    ensures
        res == migrated(settings),
{
    let mut settings = settings;
    if settings.version == 0 || settings.version > CURRENT_SETTINGS_VERSION {
        settings.version = CURRENT_SETTINGS_VERSION;
    }
    if settings.transcription.max_recording_seconds == 0 {
        settings.transcription.max_recording_seconds =
            TranscriptionSettings::default().max_recording_seconds;
    }
    if settings.history.max_items == 0 {
        settings.history.max_items = HistorySettings::default().max_items;
    }
    if settings.hotkey.mode == HotkeyMode::Hold {
        settings.hotkey.mode = HotkeyMode::Toggle;
    }
    settings
}

/// Migration always leaves settings in the current shape.
pub proof fn law_migration_makes_current(s: AppSettings)
    ensures
        migrated(s).is_current(),
{
}

/// Migrating twice is migrating once.
pub proof fn law_migration_idempotent(s: AppSettings)
    ensures
        migrated(migrated(s)) == migrated(s),
{
}

/// Settings already in the current shape are left as they are.
pub proof fn law_migration_keeps_current(s: AppSettings)
    requires
        s.is_current(),
    ensures
        migrated(s) == s,
{
}

/// Migration only repairs the version, the two limits and the hotkey mode:
/// every other setting is kept.
pub proof fn law_migration_keeps_choices(s: AppSettings)
    ensures
        migrated(s).language == s.language,
        migrated(s).input_device_id == s.input_device_id,
        migrated(s).hotkey.enabled == s.hotkey.enabled,
        migrated(s).hotkey.shortcut == s.hotkey.shortcut,
        migrated(s).transcription.model_id == s.transcription.model_id,
        migrated(s).enhancement == s.enhancement,
        migrated(s).insertion == s.insertion,
        migrated(s).history.enabled == s.history.enabled,
        migrated(s).startup == s.startup,
{
}

/// The defaults are in the current shape.
pub proof fn law_defaults_are_current(s: AppSettings)
    requires
        s.is_default(),
    ensures
        s.is_current(),
{
}

/// What saving writes, loading reads back: current settings come back
/// unchanged, and any settings come back with the current version.
pub proof fn law_save_then_load(s: AppSettings)
    ensures
        migrated(AppSettings { version: CURRENT_SETTINGS_VERSION, ..s }).version
            == CURRENT_SETTINGS_VERSION,
        s.is_current() ==> migrated(AppSettings { version: CURRENT_SETTINGS_VERSION, ..s }) == s,
{
}

/// Where the settings file of a data directory lives.
#[derive(Debug, Clone)]
pub struct SettingsStore {
    path: String,
}

impl SettingsStore {
    pub closed spec fn spec_path(&self) -> Seq<char> {
        self.path@
    }

    /// The store for `settings.json` inside `data_dir`.
    pub fn new(data_dir: &str) -> (store: Self)
        ensures
            ends_with_component(store.spec_path(), "settings.json"@),
            !is_verbatim(data_dir@) ==> is_joined(store.spec_path(), data_dir@, "settings.json"@),
    {
        proof {
            reveal_strlit("settings.json");
        }
        SettingsStore { path: join_path(data_dir, "settings.json") }
    }

    pub fn path(&self) -> (p: &str)
        ensures
            p@ == self.spec_path(),
    {
        self.path.as_str()
    }

    /// The settings that loading yields: the defaults when no file exists,
    /// else the file's settings migrated.
    pub fn settings_from_file(existing: Option<AppSettings>) -> (res: AppSettings)
        ensures
            match existing {
                None => res.is_default(),
                Some(s) => res == migrated(s),
            },
    {
        match existing {
            None => AppSettings::default(),
            Some(s) => migrate(s),
        }
    }

    /// The settings that saving writes: `settings` stamped with the current
    /// version.
    pub fn settings_to_write(settings: &AppSettings) -> (res: AppSettings)
        ensures
            res == (AppSettings { version: CURRENT_SETTINGS_VERSION, ..*settings }),
    {
        let mut next = settings.duplicate();
        next.version = CURRENT_SETTINGS_VERSION;
        next
    }
}

} // verus!
