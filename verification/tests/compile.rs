use sag_desktop::compile::{
    accepted_result, byte_length, compile_sag, placeholder_result, rejected_result,
    tool_arguments, tool_program, CompileResult, LaunchOutcome,
};

fn exited(success: bool, stdout: &[u8], stderr: &[u8]) -> LaunchOutcome {
    LaunchOutcome::Exited { success, stdout: stdout.to_vec(), stderr: stderr.to_vec() }
}

#[test]
fn missing_tool_with_empty_source() {
    let result = compile_sag(String::new(), "wasm".to_string(), LaunchOutcome::NotFound).unwrap();
    assert!(result.success);
    assert!(result.errors.is_empty());
    assert!(result.output.contains("Source length: 0 chars"));
    assert!(result.output.contains("Target: wasm"));
}

#[test]
fn missing_tool_exact_placeholder() {
    let result =
        compile_sag("agent X".to_string(), "native".to_string(), LaunchOutcome::NotFound).unwrap();
    assert_eq!(
        result,
        CompileResult {
            success: true,
            output: "// Mock compiled output for agent\n// Source length: 7 chars\n// Target: native"
                .to_string(),
            errors: vec![],
        }
    );
}

#[test]
fn missing_tool_counts_bytes_not_characters() {
    let result =
        compile_sag("h\u{e9}llo \u{1f600}".to_string(), "js".to_string(), LaunchOutcome::NotFound)
            .unwrap();
    assert_eq!(
        result.output,
        "// Mock compiled output for agent\n// Source length: 11 chars\n// Target: js"
    );
}

#[test]
fn missing_tool_with_empty_target() {
    let result = compile_sag("abc".to_string(), String::new(), LaunchOutcome::NotFound).unwrap();
    assert!(result.success);
    assert_eq!(
        result.output,
        "// Mock compiled output for agent\n// Source length: 3 chars\n// Target: "
    );
}

#[test]
fn missing_tool_long_source() {
    let source = "x".repeat(12345);
    let result = compile_sag(source, "wasm".to_string(), LaunchOutcome::NotFound).unwrap();
    assert!(result.output.contains("Source length: 12345 chars"));
    assert!(result.output.contains("12345"));
    assert!(result.output.contains("wasm"));
}

#[test]
fn missing_tool_is_repeatable() {
    let first =
        compile_sag("agent A".to_string(), "wasm".to_string(), LaunchOutcome::NotFound).unwrap();
    let second =
        compile_sag("agent A".to_string(), "wasm".to_string(), LaunchOutcome::NotFound).unwrap();
    assert_eq!(first, second);
    assert_eq!(first.output.as_bytes(), second.output.as_bytes());
}

#[test]
fn missing_tool_depends_on_length_only() {
    let first =
        compile_sag("agent A".to_string(), "wasm".to_string(), LaunchOutcome::NotFound).unwrap();
    let second =
        compile_sag("1234567".to_string(), "wasm".to_string(), LaunchOutcome::NotFound).unwrap();
    assert_eq!(first, second);
}

#[test]
fn tool_accepts() {
    let result =
        compile_sag("agent X".to_string(), "native".to_string(), exited(true, b"ok", b"")).unwrap();
    assert_eq!(result, CompileResult { success: true, output: "ok".to_string(), errors: vec![] });
}

#[test]
fn tool_accepts_and_standard_error_is_dropped() {
    let result = compile_sag(
        "agent X".to_string(),
        "native".to_string(),
        exited(true, b"checked 1 file\n", b"warning: unused"),
    )
    .unwrap();
    assert_eq!(
        result,
        CompileResult { success: true, output: "checked 1 file\n".to_string(), errors: vec![] }
    );
}

#[test]
fn tool_accepts_with_no_output() {
    let result = compile_sag(String::new(), String::new(), exited(true, b"", b"")).unwrap();
    assert_eq!(result, CompileResult { success: true, output: String::new(), errors: vec![] });
}

#[test]
fn tool_rejects() {
    let result = compile_sag(
        "agent X".to_string(),
        "native".to_string(),
        exited(false, b"", b"parse error at line 3"),
    )
    .unwrap();
    assert_eq!(
        result,
        CompileResult {
            success: false,
            output: String::new(),
            errors: vec!["parse error at line 3".to_string()],
        }
    );
}

#[test]
fn tool_rejects_and_standard_output_is_dropped() {
    let result = compile_sag(
        "agent X".to_string(),
        "native".to_string(),
        exited(false, b"partial output", b"boom"),
    )
    .unwrap();
    assert_eq!(
        result,
        CompileResult { success: false, output: String::new(), errors: vec!["boom".to_string()] }
    );
}

#[test]
fn tool_rejects_silently() {
    let result = compile_sag("a".to_string(), "b".to_string(), exited(false, b"", b"")).unwrap();
    assert!(!result.success);
    assert_eq!(result.errors, vec![String::new()]);
}

#[test]
fn ill_formed_standard_output_is_replaced() {
    let result =
        compile_sag("a".to_string(), "b".to_string(), exited(true, &[0x66, 0xff, 0x6f], b""))
            .unwrap();
    assert!(result.success);
    assert_eq!(result.output, "f\u{fffd}o");
    assert_eq!(result.output.as_bytes(), &[0x66, 0xef, 0xbf, 0xbd, 0x6f]);
}

#[test]
fn ill_formed_standard_error_is_replaced() {
    let result = compile_sag(
        "a".to_string(),
        "b".to_string(),
        exited(false, b"", &[0xe2, 0x82, 0x41, 0xc0]),
    )
    .unwrap();
    assert!(!result.success);
    assert_eq!(result.output, "");
    assert_eq!(result.errors, vec!["\u{fffd}A\u{fffd}".to_string()]);
}

#[test]
fn well_formed_multibyte_output_is_kept() {
    let text = "gr\u{fc}\u{df}e \u{2713}";
    let result =
        compile_sag("a".to_string(), "b".to_string(), exited(true, text.as_bytes(), b"")).unwrap();
    assert_eq!(result.output, text);
}

#[test]
fn every_result_has_the_expected_shape() {
    let outcomes = vec![
        LaunchOutcome::NotFound,
        exited(true, b"ok", b"ignored"),
        exited(false, b"ignored", b"bad"),
    ];
    for launch in outcomes {
        let result = compile_sag("src".to_string(), "wasm".to_string(), launch).unwrap();
        assert_eq!(result.success, result.errors.is_empty());
        assert!(result.errors.len() <= 1);
        if !result.success {
            assert!(result.output.is_empty());
        }
    }
}

#[test]
fn placeholder_result_is_exact() {
    let result = placeholder_result(0, "wasm");
    assert_eq!(
        result,
        CompileResult {
            success: true,
            output: "// Mock compiled output for agent\n// Source length: 0 chars\n// Target: wasm"
                .to_string(),
            errors: vec![],
        }
    );
}

#[test]
fn placeholder_result_at_the_largest_length() {
    let result = placeholder_result(usize::MAX, "t");
    let expected = format!(
        "// Mock compiled output for agent\n// Source length: {} chars\n// Target: t",
        usize::MAX
    );
    assert_eq!(result.output, expected);
}

#[test]
fn accepted_result_keeps_the_output() {
    let result = accepted_result("done".to_string());
    assert_eq!(result, CompileResult { success: true, output: "done".to_string(), errors: vec![] });
}

#[test]
fn rejected_result_holds_one_error() {
    let result = rejected_result("no".to_string());
    assert_eq!(
        result,
        CompileResult { success: false, output: String::new(), errors: vec!["no".to_string()] }
    );
}

#[test]
fn byte_length_is_the_encoded_length() {
    assert_eq!(byte_length(""), 0);
    assert_eq!(byte_length("abc"), 3);
    assert_eq!(byte_length("\u{e9}"), 2);
    assert_eq!(byte_length("\u{20ac}"), 3);
    assert_eq!(byte_length("\u{1f600}"), 4);
}

#[test]
fn tool_invocation_is_fixed() {
    assert_eq!(tool_program(), "sag");
    assert_eq!(tool_arguments(), vec!["check", "--stdin"]);
}
