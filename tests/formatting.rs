use jsonfmt::{resume, start, IndentType, PipelineResult, Step};

fn formatted_text(input: &str, indent: IndentType) -> String {
    match start(input, indent) {
        Step::Done(r) => r.to_text(),
        Step::NeedsRepair { .. } => panic!("input was expected to parse without repair"),
    }
}

#[test]
fn test_indentation() {
    let input = r#"{"name":"张三","age":25}"#;

    assert!(formatted_text(input, IndentType::Spaces2).contains("  \"name\""));
    assert!(formatted_text(input, IndentType::Spaces4).contains("    \"name\""));
    assert!(formatted_text(input, IndentType::Tab).contains("\t\"name\""));
    assert!(!formatted_text(input, IndentType::Compact).contains("\n"));
}

#[test]
fn test_json5_features() {
    let input = r#"{
            // 注释
            name: "张三",
            age: 25,
        }"#;
    let result = formatted_text(input, IndentType::Spaces2);
    assert!(result.contains("\"name\""));
    assert!(result.contains("\"张三\""));
}

#[test]
fn test_error_handling() {
    let invalid_input = r#"{name: 无效的值}"#;
    // The repair engine runs outside the library; here it reports that it could not repair.
    let result = match start(invalid_input, IndentType::Spaces2) {
        Step::NeedsRepair { primary, .. } => {
            resume(primary, Err("all attempted repairs failed".to_string()), IndentType::Spaces2)
        }
        Step::Done(r) => r,
    };
    assert!(matches!(result, PipelineResult::Diagnostic { .. }));
    assert!(result.to_text().contains("错误"));
}

