//! The parse, repair, reparse and format pipeline.
//!
//! The repair engine runs outside the library: `start` trims and parses the input and
//! either finishes or asks for a repair of the trimmed text; `resume` takes the repair
//! engine's outcome and finishes.

use vstd::prelude::*;
use crate::engine::{
    compact_json, compact_text, json5_value, parse_json5, parse_strict, pretty_json, pretty_text,
    strict_value,
};
use crate::outcome::{PipelineResult, Position, Stage, StageError};
use crate::style::{indent_unit, indent_unit_bytes, IndentType};
use crate::text::{annotate, repair_marker, trim_whitespace, trimmed};

verus! {

/// The text of `v` under `indent`.
pub open spec fn rendered(v: serde_json::Value, indent: IndentType) -> Seq<char> {
    match indent {
        IndentType::Compact => compact_json(v),
        _ => pretty_json(v, indent_unit(indent)),
    }
}

/// Writes `value` as JSON text under `indent`.
pub fn render(value: &serde_json::Value, indent: IndentType) -> (r: String)
    ensures
        r@ == rendered(*value, indent),
        indent == IndentType::Compact ==> !r@.contains('\n'),
{
    match indent {
        IndentType::Compact => compact_text(value),
        _ => {
            let unit = indent_unit_bytes(indent);
            pretty_text(value, &unit)
        },
    }
}

/// The longest trimmed input, in characters, that goes to the repair engine. Longer input
/// that the relaxed grammar rejects ends in a diagnostic, so that the cost of the repair
/// heuristics stays bounded.
pub const MAX_REPAIR_CHARS: usize = 1048576;

/// The message of the repair error for input over `MAX_REPAIR_CHARS`.
pub open spec fn too_long_message() -> Seq<char> {
    "输入超过可修复的长度上限，未尝试修复"@
}

/// Where the pipeline stands after the relaxed parse.
#[derive(Clone, Debug)]
pub enum Step {
    /// The pipeline is finished.
    Done(PipelineResult),
    /// The relaxed parse failed with `primary`; `text` is to go to the repair engine.
    NeedsRepair { text: String, primary: StageError },
}

/// Decides the step after the relaxed parse of the trimmed, non-empty text `t`: a parsed
/// value is formatted under `indent`; on the parser's error (its message and position) `t`
/// is handed on for repair, unless it is longer than `MAX_REPAIR_CHARS`, which ends in a
/// diagnostic without a repair attempt.
pub fn after_lenient(
    t: String,
    parsed: Result<serde_json::Value, (String, Option<Position>)>,
    indent: IndentType,
) -> (r: Step)
    ensures
        parsed is Ok ==> (r matches Step::Done(d) && d matches PipelineResult::Formatted {
            text: f,
        } && f@ == rendered(parsed->Ok_0, indent)),
        indent == IndentType::Compact ==> (r matches Step::Done(PipelineResult::Formatted { text: f })
            ==> !f@.contains('\n')),
        parsed is Err && t@.len() <= MAX_REPAIR_CHARS ==> r == (Step::NeedsRepair {
            text: t,
            primary: StageError {
                stage: Stage::LenientParse,
                message: parsed->Err_0.0,
                position: parsed->Err_0.1,
            },
        }),
        parsed is Err && t@.len() > MAX_REPAIR_CHARS ==> (r matches Step::Done(d)
            && d matches PipelineResult::Diagnostic { primary: e, secondary: Some(s) }
            && e == (StageError {
            stage: Stage::LenientParse,
            message: parsed->Err_0.0,
            position: parsed->Err_0.1,
        }) && s.stage == Stage::Repair && s.message@ == too_long_message()
            && s.position is None),
{
    match parsed {
        Ok(v) => Step::Done(PipelineResult::Formatted { text: render(&v, indent) }),
        Err((message, position)) => {
            let primary = StageError { stage: Stage::LenientParse, message, position };
            if t.unicode_len() <= MAX_REPAIR_CHARS {
                Step::NeedsRepair { text: t, primary }
            } else {
                let refused = StageError {
                    stage: Stage::Repair,
                    message: String::from_str("输入超过可修复的长度上限，未尝试修复"),
                    position: None,
                };
                Step::Done(PipelineResult::Diagnostic { primary, secondary: Some(refused) })
            }
        },
    }
}

/// Trims `text` and reads it with the relaxed grammar. Empty input gives an empty
/// document; otherwise `after_lenient` decides from the parser's outcome. A formatted
/// document is the rendering of the value that the relaxed grammar gives the trimmed
/// text; a text handed on for repair is the trimmed text, with the relaxed parser's error.
pub fn start(text: &str, indent: IndentType) -> (r: Step)
    ensures
        trimmed(text@).len() == 0 ==> (r matches Step::Done(d) && d matches PipelineResult::Formatted {
            text: t,
        } && t@ == Seq::<char>::empty()),
        trimmed(text@).len() > 0 ==> (r matches Step::Done(PipelineResult::Formatted { text: t })
            ==> json5_value(trimmed(text@)) is Some && t@ == rendered(
            json5_value(trimmed(text@))->Some_0,
            indent,
        )),
        indent == IndentType::Compact ==> (r matches Step::Done(PipelineResult::Formatted { text: t })
            ==> !t@.contains('\n')),
        r matches Step::NeedsRepair { text: t, primary: e } ==> t@ == trimmed(text@) && 0 < t@.len()
            <= MAX_REPAIR_CHARS && e.stage == Stage::LenientParse,
        json5_value(trimmed(text@)) is None && 0 < trimmed(text@).len() <= MAX_REPAIR_CHARS ==> r is NeedsRepair,
        r matches Step::Done(PipelineResult::Diagnostic { primary: e, secondary: Some(s) }) ==> trimmed(
            text@,
        ).len() > MAX_REPAIR_CHARS && e.stage == Stage::LenientParse && s.stage == Stage::Repair
            && s.message@ == too_long_message(),
        r is Done ==> (r->Done_0 is Formatted || r->Done_0 matches PipelineResult::Diagnostic {
            secondary: Some(_),
            ..
        }),
{
    let t = trim_whitespace(text);
    if t.unicode_len() == 0 {
        return Step::Done(PipelineResult::Formatted { text: String::new() });
    }
    let parsed = parse_json5(t.as_str());
    after_lenient(t, parsed, indent)
}

/// Finishes the pipeline from the repair engine's outcome: its value, or its message.
/// A repaired value is written out compactly and read again as standard JSON; that
/// value is formatted under `indent` behind the repair marker line.
pub fn resume(
    primary: StageError,
    repaired: Result<serde_json::Value, String>,
    indent: IndentType,
) -> (r: PipelineResult)
    ensures
        repaired is Err ==> r == (PipelineResult::Diagnostic {
            primary,
            secondary: Some(StageError {
                stage: Stage::Repair,
                message: repaired->Err_0,
                position: None,
            }),
        }),
        repaired is Ok && strict_value(compact_json(repaired->Ok_0)) is None ==> (r matches PipelineResult::Diagnostic {
            primary: p,
            secondary: Some(e),
        } && p == primary && e.stage == Stage::PostRepairParse),
        repaired is Ok && strict_value(compact_json(repaired->Ok_0)) is Some ==> (r matches PipelineResult::RepairedFormatted {
            text: t,
            annotated: a,
        } && a && t@ == repair_marker() + rendered(
            strict_value(compact_json(repaired->Ok_0))->Some_0,
            indent,
        )),
{
    match repaired {
        Err(message) => PipelineResult::Diagnostic {
            primary,
            secondary: Some(StageError { stage: Stage::Repair, message, position: None }),
        },
        Ok(v) => {
            let text = compact_text(&v);
            match parse_strict(text.as_str()) {
                Err((message, position)) => PipelineResult::Diagnostic {
                    primary,
                    secondary: Some(StageError { stage: Stage::PostRepairParse, message, position }),
                },
                Ok(w) => {
                    let body = render(&w, indent);
                    PipelineResult::RepairedFormatted { text: annotate(body.as_str()), annotated: true }
                },
            }
        },
    }
}

} // verus!
