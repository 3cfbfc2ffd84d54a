//! Normalises relaxed or malformed JSON text into deterministically formatted JSON.

pub mod engine;
pub mod outcome;
pub mod pipeline;
pub mod style;
pub mod text;

pub use outcome::{PipelineResult, Position, Stage, StageError};
pub use pipeline::{after_lenient, render, resume, start, Step, MAX_REPAIR_CHARS};
pub use style::IndentType;
pub use text::{annotate, strip_repair_annotation, trim_whitespace};
