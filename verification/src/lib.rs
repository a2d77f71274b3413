//! The verified core of the FluidVoice Windows dictation app: settings and
//! their migration, the model catalog, history retention, hotkey parsing,
//! enhancement prompts, text insertion and the dictation flow.
pub mod audio;
pub mod commands;
pub mod enhancement;
pub mod external;
pub mod history;
pub mod hotkey;
pub mod model_catalog;
pub mod paths;
pub mod secrets;
pub mod settings;
pub mod text;
pub mod text_insertion;
pub mod transcription;
