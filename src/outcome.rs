//! Stage errors and the results of the pipeline.

use vstd::prelude::*;

verus! {

/// The stage of the pipeline at which an error arose.
#[derive(Clone, Copy, Debug, PartialEq, Eq, Structural)]
pub enum Stage {
    /// The relaxed grammar rejected the input.
    LenientParse,
    /// The repair engine could not rewrite the input.
    Repair,
    /// The repaired text is still not standard JSON.
    PostRepairParse,
}

/// One-based line and column in the text that a parser read.
#[derive(Clone, Copy, Debug, PartialEq, Eq, Structural)]
pub struct Position {
    pub line: usize,
    pub column: usize,
}

/// An error of one stage, with the parser's message and, where known, its position.
#[derive(Clone, Debug)]
pub struct StageError {
    pub stage: Stage,
    pub message: String,
    pub position: Option<Position>,
}

/// What the pipeline hands back for one input.
#[derive(Clone, Debug)]
pub enum PipelineResult {
    /// The input parsed without repair; `text` is the formatted document.
    Formatted { text: String },
    /// The input parsed only after repair; `text` opens with the repair marker line.
    RepairedFormatted { text: String, annotated: bool },
    /// No document could be produced; `primary` is the relaxed parser's error.
    Diagnostic { primary: StageError, secondary: Option<StageError> },
}

/// How a diagnostic reads: the relaxed parser's error, then what stopped the repair.
pub open spec fn diagnostic_text(primary: StageError, secondary: Option<StageError>) -> Seq<char> {
    match secondary {
        None => "JSON 格式错误:\n"@ + primary.message@,
        Some(e) => if e.stage == Stage::PostRepairParse {
            "JSON 修复后仍然无法解析:\n原始错误: "@ + primary.message@ + "\n修复后错误: "@ + e.message@
        } else {
            "JSON 格式错误:\n"@ + primary.message@ + "\n\n无法修复错误:\n"@ + e.message@
        },
    }
}

/// The text that a caller shows for a result: the document, or the diagnostic.
pub open spec fn result_text(r: PipelineResult) -> Seq<char> {
    match r {
        PipelineResult::Formatted { text } => text@,
        PipelineResult::RepairedFormatted { text, .. } => text@,
        PipelineResult::Diagnostic { primary, secondary } => diagnostic_text(primary, secondary),
    }
}

impl PipelineResult {
    /// The text to show for this result: the document, or the diagnostic's explanation.
    pub fn to_text(&self) -> (r: String)
        ensures
            r@ == result_text(*self),
    {
        match self {
            PipelineResult::Formatted { text } => text.clone(),
            PipelineResult::RepairedFormatted { text, .. } => text.clone(),
            PipelineResult::Diagnostic { primary, secondary } => match secondary {
                None => {
                    let mut r = String::from_str("JSON 格式错误:\n");
                    r.append(primary.message.as_str());
                    r
                },
                Some(e) => {
                    if e.stage == Stage::PostRepairParse {
                        let mut r = String::from_str("JSON 修复后仍然无法解析:\n原始错误: ");
                        r.append(primary.message.as_str());
                        r.append("\n修复后错误: ");
                        r.append(e.message.as_str());
                        r
                    } else {
                        let mut r = String::from_str("JSON 格式错误:\n");
                        r.append(primary.message.as_str());
                        r.append("\n\n无法修复错误:\n");
                        r.append(e.message.as_str());
                        r
                    }
                },
            },
        }
    }
}

} // verus!
