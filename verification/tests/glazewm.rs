use glazewm_window_info::json::JsonNode;
use glazewm_window_info::query::{
    interpret_response, parse_query_output, query_focused_window, use_fallback,
    QueryCommandOutput, QueryResponse,
};

const SAMPLE_RESPONSE: &[u8] = br#"{
    "clientMessage": "query focused",
    "data": {
        "focused": {
            "type": "window",
            "handle": 589994,
            "title": "main.rs",
            "className": "Chrome_WidgetWin_1",
            "processName": "Code"
        }
    },
    "error": null,
    "success": true
}"#;

#[test]
fn extracts_summary_fields() {
    let result = parse_query_output(SAMPLE_RESPONSE).unwrap();
    assert_eq!(result.process_name, "Code");
    assert_eq!(result.class_name, "Chrome_WidgetWin_1");
    assert_eq!(result.title, "main.rs");
}

#[test]
fn preserves_and_formats_the_complete_response() {
    let result = parse_query_output(SAMPLE_RESPONSE).unwrap();
    assert!(
        result
            .formatted_json
            .contains("\"clientMessage\": \"query focused\"")
    );
    assert!(result.formatted_json.contains("\n  \"data\""));
    assert!(result.formatted_json.contains("\"handle\": 589994"));
}

#[test]
fn refused_query_reports_its_error() {
    let result = parse_query_output(br#"{"success": false, "error": "no focus"}"#);
    assert_eq!(result.err().unwrap(), "no focus");
}

#[test]
fn refused_query_without_error_text_reports_unknown_error() {
    let result = parse_query_output(br#"{"success": false, "error": null}"#);
    assert_eq!(result.err().unwrap(), "GlazeWM 返回了未知错误。");
}

#[test]
fn invalid_json_is_reported() {
    let result = parse_query_output(b"not json");
    let message = result.err().unwrap();
    assert!(message.starts_with("无法解析 GlazeWM 返回的 JSON："));
    assert!(message.len() > "无法解析 GlazeWM 返回的 JSON：".len());
}

#[test]
fn missing_fields_show_a_dash() {
    let result = parse_query_output(br#"{"data": {"focused": {"title": 5}}, "success": true}"#).unwrap();
    assert_eq!(result.title, "—");
    assert_eq!(result.class_name, "—");
    assert_eq!(result.process_name, "—");
    assert_eq!(
        result.formatted_json,
        "{\n  \"data\": {\n    \"focused\": {\n      \"title\": 5\n    }\n  },\n  \"success\": true\n}"
    );
}

#[test]
fn success_that_is_not_a_boolean_is_not_a_refusal() {
    let result = parse_query_output(br#"{"success": "false", "error": "x"}"#).unwrap();
    assert_eq!(result.title, "—");
}

#[test]
fn interpret_response_builds_the_summary() {
    let response = QueryResponse {
        success: Some(JsonNode::Bool(true)),
        error: None,
        title: Some(JsonNode::Text("T".to_string())),
        class_name: Some(JsonNode::Number),
        process_name: Some(JsonNode::Text("P".to_string())),
        formatted_json: Ok("{}".to_string()),
    };
    let info = interpret_response(response).unwrap();
    assert_eq!(info.title, "T");
    assert_eq!(info.class_name, "—");
    assert_eq!(info.process_name, "P");
    assert_eq!(info.formatted_json, "{}");
}

#[test]
fn interpret_response_reports_a_formatting_error() {
    let response = QueryResponse {
        success: None,
        error: None,
        title: None,
        class_name: None,
        process_name: None,
        formatted_json: Err("boom".to_string()),
    };
    assert_eq!(
        interpret_response(response).err().unwrap(),
        "无法格式化 GlazeWM 返回的 JSON：boom"
    );
}

#[test]
fn interpret_response_refusal_comes_before_formatting() {
    let response = QueryResponse {
        success: Some(JsonNode::Bool(false)),
        error: Some(JsonNode::Text("denied".to_string())),
        title: None,
        class_name: None,
        process_name: None,
        formatted_json: Err("boom".to_string()),
    };
    assert_eq!(interpret_response(response).err().unwrap(), "denied");
}

#[test]
fn command_that_cannot_run_is_reported() {
    let result = query_focused_window(Err("program not found".to_string()));
    assert_eq!(
        result.err().unwrap(),
        "无法运行 `glazewm query focused`：program not found\n请确认 GlazeWM 正在运行并且 CLI 位于 PATH 中。"
    );
}

#[test]
fn failed_command_reports_trimmed_stderr() {
    let output = QueryCommandOutput {
        success: false,
        status: "exit code: 1".to_string(),
        stdout: Vec::new(),
        stderr: b"  IPC server not running\r\n".to_vec(),
    };
    assert_eq!(
        query_focused_window(Ok(output)).err().unwrap(),
        "GlazeWM 查询失败：IPC server not running"
    );
}

#[test]
fn failed_command_without_stderr_reports_status() {
    let output = QueryCommandOutput {
        success: false,
        status: "exit code: 2".to_string(),
        stdout: SAMPLE_RESPONSE.to_vec(),
        stderr: b" \n\t".to_vec(),
    };
    assert_eq!(
        query_focused_window(Ok(output)).err().unwrap(),
        "GlazeWM 查询失败，退出码：exit code: 2"
    );
}

#[test]
fn failed_command_with_invalid_utf8_stderr_is_decoded_lossily() {
    let output = QueryCommandOutput {
        success: false,
        status: "exit code: 1".to_string(),
        stdout: Vec::new(),
        stderr: vec![b'b', b'a', b'd', 0xff],
    };
    assert_eq!(
        query_focused_window(Ok(output)).err().unwrap(),
        "GlazeWM 查询失败：bad\u{fffd}"
    );
}

#[test]
fn successful_command_output_is_parsed() {
    let output = QueryCommandOutput {
        success: true,
        status: "exit code: 0".to_string(),
        stdout: SAMPLE_RESPONSE.to_vec(),
        stderr: b"warning".to_vec(),
    };
    let info = query_focused_window(Ok(output)).unwrap();
    assert_eq!(info.process_name, "Code");
}

#[test]
fn fallback_only_when_not_found_and_present() {
    assert!(use_fallback(true, true));
    assert!(!use_fallback(true, false));
    assert!(!use_fallback(false, true));
    assert!(!use_fallback(false, false));
}

#[test]
fn valid_json_that_is_not_a_refusal_always_gives_a_summary() {
    for text in [&b"null"[..], b"[]", b"42", b"\"x\"", b"{\"success\": null}", b"{\"data\": []}"] {
        assert!(parse_query_output(text).is_ok());
    }
}
