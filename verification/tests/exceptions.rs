use libdeno::buf::deno_buf;
use libdeno::exception::{encode_exception_json, ExceptionInfo, StackFrame};
use libdeno::isolate::{
    deno_clear_last_exception, deno_config, deno_last_exception, deno_new,
    terminated_exception_message, DenoIsolate, ExecOutcome,
};

fn fresh_isolate() -> DenoIsolate {
    let config = deno_config { will_snapshot: 0, load_snapshot: None, shared: deno_buf::empty() };
    deno_new(config).0
}

fn base_exception() -> ExceptionInfo {
    ExceptionInfo {
        message: "Uncaught Error: bad".to_string(),
        script_resource_name: "a.js".to_string(),
        source_line: "throw e".to_string(),
        line_number: 1,
        start_position: 0,
        end_position: 4,
        error_level: 8,
        start_column: 0,
        end_column: 4,
        is_shared_cross_origin: false,
        is_opaque: false,
        frames: None,
    }
}

#[test]
fn document_with_stack_trace() {
    let mut e = base_exception();
    e.frames = Some(vec![StackFrame {
        line: 1,
        column: 2,
        function_name: Some("foo".to_string()),
        script_name: "a.js".to_string(),
        is_eval: false,
        is_constructor: false,
        is_wasm: false,
    }]);
    let json = encode_exception_json(&e);
    let expected = "{\"message\":\"Uncaught Error: bad\",\"scriptResourceName\":\"a.js\",\"sourceLine\":\"throw e\",\"lineNumber\":1,\"startPosition\":0,\"endPosition\":4,\"errorLevel\":8,\"startColumn\":0,\"endColumn\":4,\"isSharedCrossOrigin\":false,\"isOpaque\":false,\"frames\":[{\"line\":1,\"column\":2,\"functionName\":\"foo\",\"scriptName\":\"a.js\",\"isEval\":false,\"isConstructor\":false,\"isWasm\":false}]}";
    assert_eq!(json, expected);
}

#[test]
fn document_without_stack_trace_carries_synthetic_frame() {
    let mut e = base_exception();
    e.script_resource_name = "b.js".to_string();
    e.line_number = 3;
    e.start_column = 5;
    let json = encode_exception_json(&e);
    assert!(json.ends_with(
        "\"frames\":[{\"scriptResourceName\":\"b.js\",\"line\":3,\"column\":5}]}"
    ));
}

#[test]
fn anonymous_frame_omits_function_name() {
    let mut e = base_exception();
    e.frames = Some(vec![StackFrame {
        line: 10,
        column: 20,
        function_name: None,
        script_name: "<unknown>".to_string(),
        is_eval: true,
        is_constructor: false,
        is_wasm: false,
    }]);
    let json = encode_exception_json(&e);
    let expected_frames = "\"frames\":[{\"line\":10,\"column\":20,\"scriptName\":\"<unknown>\",\"isEval\":true,\"isConstructor\":false,\"isWasm\":false}]";
    assert!(json.contains(expected_frames));
}

#[test]
fn frames_keep_their_order() {
    let mut e = base_exception();
    let frame = |line: i32| StackFrame {
        line,
        column: 0,
        function_name: None,
        script_name: "a.js".to_string(),
        is_eval: false,
        is_constructor: false,
        is_wasm: false,
    };
    e.frames = Some(vec![frame(1), frame(2), frame(3)]);
    let json = encode_exception_json(&e);
    let first = json.find("\"line\":1").unwrap();
    let second = json.find("\"line\":2").unwrap();
    let third = json.find("\"line\":3").unwrap();
    assert!(first < second && second < third);
}

#[test]
fn empty_stack_trace_is_an_empty_array() {
    let mut e = base_exception();
    e.frames = Some(Vec::new());
    let json = encode_exception_json(&e);
    assert!(json.ends_with("\"frames\":[]}"));
}

#[test]
fn string_escaping_matches_json() {
    let mut e = base_exception();
    e.message = "say \"hi\"\n\\x\t\u{1}".to_string();
    let json = encode_exception_json(&e);
    assert!(json.starts_with("{\"message\":\"say \\\"hi\\\"\\n\\\\x\\t\\u0001\","));
}

#[test]
fn control_characters_use_short_escapes() {
    let mut e = base_exception();
    e.message = "\u{8}\u{c}\r\u{1f}".to_string();
    let json = encode_exception_json(&e);
    assert!(json.starts_with("{\"message\":\"\\b\\f\\r\\u001f\","));
}

#[test]
fn negative_and_extreme_integers() {
    let mut e = base_exception();
    e.line_number = -5;
    e.start_position = i32::MIN;
    e.end_position = i32::MAX;
    let json = encode_exception_json(&e);
    assert!(json.contains("\"lineNumber\":-5,"));
    assert!(json.contains("\"startPosition\":-2147483648,"));
    assert!(json.contains("\"endPosition\":2147483647,"));
}

#[test]
fn failing_execute_stores_canonical_document() {
    let mut iso = fresh_isolate();
    let e = base_exception();
    let expected = encode_exception_json(&e);
    let ok = iso.execute(&ExecOutcome::Caught(e, false));
    assert!(!ok);
    assert_eq!(deno_last_exception(&iso).as_deref(), Some(expected.as_str()));
    // The top-level keys are exactly the canonical ones, in order.
    for key in [
        "\"message\":",
        "\"scriptResourceName\":",
        "\"sourceLine\":",
        "\"lineNumber\":",
        "\"startPosition\":",
        "\"endPosition\":",
        "\"errorLevel\":",
        "\"startColumn\":",
        "\"endColumn\":",
        "\"isSharedCrossOrigin\":",
        "\"isOpaque\":",
        "\"frames\":",
    ] {
        assert!(expected.contains(key));
    }
}

#[test]
fn successful_execute_leaves_state_alone() {
    let mut iso = fresh_isolate();
    let ok = iso.execute(&ExecOutcome::Completed);
    assert!(ok);
    assert!(deno_last_exception(&iso).is_none());
}

#[test]
fn clear_last_exception_resets_the_slot() {
    let mut iso = fresh_isolate();
    iso.execute(&ExecOutcome::Caught(base_exception(), false));
    assert!(deno_last_exception(&iso).is_some());
    deno_clear_last_exception(&mut iso);
    assert!(deno_last_exception(&iso).is_none());
}

#[test]
fn termination_reports_execution_terminated() {
    // JS ran `while(true){}` and the host called terminate_execution: the
    // pending exception is null, so the handler synthesizes this text and
    // reports it with the termination flag set.
    let mut iso = fresh_isolate();
    let mut e = base_exception();
    e.message = terminated_exception_message();
    let reterminate = iso.handle_exception(&e, true);
    assert!(reterminate);
    let last = deno_last_exception(&iso).unwrap();
    assert!(last.starts_with("{\"message\":\"execution terminated\","));
}
