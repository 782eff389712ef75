//! The application settings model. Reading and writing it as TOML, and where the file
//! lives, belong to the application.

use vstd::prelude::*;

use crate::format::{OutputFormat, PngCompression, Quality};

verus! {

/// Interface language.
#[derive(Debug, Clone, Copy, PartialEq, Eq, Structural)]
pub enum Language {
    /// Simplified Chinese (the default).
    ZhCn,
    /// English.
    En,
}

impl Default for Language {
    fn default() -> (l: Self)
        ensures
            l == Language::ZhCn,
    {
        Language::ZhCn
    }
}

impl Language {
    /// The locale identifier: `zh-CN` or `en`.
    pub fn locale(self) -> (locale: &'static str)
        ensures
            locale@ == (match self {
                Language::ZhCn => "zh-CN"@,
                Language::En => "en"@,
            }),
    {
        match self {
            Language::ZhCn => "zh-CN",
            Language::En => "en",
        }
    }
}

/// One entry of the local AI history; prompts and keys are never recorded.
#[derive(Debug, Clone)]
pub struct GenerationHistoryRecord {
    /// Completion time, in Unix milliseconds.
    pub created_at_unix_ms: u64,
    /// Stable provider identifier.
    pub provider: String,
    /// Stable feature identifier.
    pub feature: String,
    /// Number of images returned.
    pub output_count: usize,
    /// Local paths the results were saved to.
    pub saved_paths: Vec<String>,
}

/// Application settings. API keys are never part of them.
#[derive(Debug, Clone)]
pub struct AppConfig {
    /// Default export format.
    pub default_export_format: OutputFormat,
    /// Default quality of lossy exports.
    pub default_export_quality: Quality,
    /// PNG compression effort.
    pub default_png_compression: PngCompression,
    /// Interface language.
    pub language: Language,
    /// Last output directory.
    pub last_output_dir: Option<String>,
    /// Stable identifier of the default AI provider.
    pub default_provider: String,
    /// Local AI history.
    pub generation_history: Vec<GenerationHistoryRecord>,
}

impl Default for AppConfig {
    fn default() -> (config: Self)
        ensures
            config.default_export_format == OutputFormat::Png,
            config.default_export_quality.spec_value() == 85,
            config.default_png_compression == PngCompression::Default,
            config.language == Language::ZhCn,
            config.last_output_dir is None,
            config.default_provider@ == "seedream"@,
            config.generation_history.len() == 0,
    {
        AppConfig {
            default_export_format: OutputFormat::Png,
            default_export_quality: Quality::default(),
            default_png_compression: PngCompression::default(),
            language: Language::default(),
            last_output_dir: None,
            default_provider: String::from_str("seedream"),
            generation_history: Vec::new(),
        }
    }
}

} // verus!
