//! Verified core of an image toolbox: formats, naming, slicing, documents and AI request rules.

pub mod format;
pub mod raster;
pub mod document;
pub mod text;
pub mod error;
pub mod slice;
pub mod naming;
pub mod transform;
pub mod batch;
pub mod collage;
pub mod qr;
pub mod animation;
pub mod feature_params;
pub mod ai;
pub mod presets;
pub mod section;
pub mod ai_state;
pub mod config;
pub mod ui_rules;
pub mod ui_message;
pub mod workspace;
pub mod export_plan;
pub mod batch_run;
pub mod text_watermark;
pub mod poster;
pub mod cover;
pub mod workspace_state;
pub mod path_prompt;
pub mod path_load;
pub mod ai_task;
pub mod exif;
pub mod beautify;
