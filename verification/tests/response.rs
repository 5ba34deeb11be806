use clippy_clippy::json::{Json, Member};
use clippy_clippy::response::{
    classify, decode_response, interpret, interpret_document, status_is_success, Choice,
    CompletionResponse, ErrorRecord, InterpretError, ResponseMessage, Usage,
};

fn member(name: &str, value: Json) -> Member {
    Member { name: name.to_string(), value }
}

fn text(value: &str) -> Json {
    Json::Text(value.to_string())
}

fn choice(content: Option<&str>, finish_reason: Option<&str>) -> Choice {
    Choice {
        message: ResponseMessage { content: content.map(|s| s.to_string()) },
        finish_reason: finish_reason.map(|s| s.to_string()),
    }
}

fn api_error(message: &str, kind: &str) -> InterpretError {
    InterpretError::ApiError { message: message.to_string(), kind: kind.to_string() }
}

fn http_error(status: u16, raw_body: &str) -> InterpretError {
    InterpretError::HttpError { status, raw_body: raw_body.to_string() }
}

fn malformed(raw_body: &str) -> InterpretError {
    InterpretError::MalformedResponse { raw_body: raw_body.to_string() }
}

#[test]
fn error_record_at_a_failure_status_is_an_api_error() {
    let body = r#"{"error":{"message":"bad key","type":"invalid_request_error"}}"#;
    assert_eq!(interpret(401, body), Err(api_error("bad key", "invalid_request_error")));
}

#[test]
fn null_content_is_the_empty_text() {
    let body = r#"{"choices":[{"message":{"content":null}}]}"#;
    assert_eq!(interpret(200, body), Ok(String::new()));
}

#[test]
fn no_choice_is_a_failure_of_its_own() {
    assert_eq!(interpret(200, r#"{"choices":[]}"#), Err(InterpretError::NoChoices));
}

#[test]
fn failure_status_with_a_plain_body_is_an_http_error() {
    assert_eq!(
        interpret(503, "Service Unavailable"),
        Err(http_error(503, "Service Unavailable"))
    );
}

#[test]
fn content_of_the_first_choice_is_the_text() {
    let body = r#"{"choices":[{"message":{"content":"HELLO"}}]}"#;
    assert_eq!(interpret(200, body), Ok("HELLO".to_string()));
}

#[test]
fn a_full_response_yields_its_text() {
    let body = r#"{
        "id": "chatcmpl-1",
        "choices": [
            {"index": 0, "message": {"role": "assistant", "content": "| a | b |"}, "finish_reason": "stop"},
            {"index": 1, "message": {"role": "assistant", "content": "second"}, "finish_reason": "length"}
        ],
        "usage": {"prompt_tokens": 11, "completion_tokens": 5, "total_tokens": 16}
    }"#;
    assert_eq!(interpret(200, body), Ok("| a | b |".to_string()));
}

#[test]
fn error_record_wins_over_a_success_status() {
    let body = r#"{"choices":[{"message":{"content":"HELLO"}}],"error":{"message":"quota","type":"insufficient_quota"}}"#;
    assert_eq!(interpret(200, body), Err(api_error("quota", "insufficient_quota")));
    assert_eq!(interpret(299, body), Err(api_error("quota", "insufficient_quota")));
}

#[test]
fn error_record_wins_at_every_status() {
    let body = r#"{"error":{"message":"m","type":"t"}}"#;
    for status in [100u16, 199, 200, 204, 299, 300, 400, 401, 429, 500, 503, 999] {
        assert_eq!(interpret(status, body), Err(api_error("m", "t")));
    }
}

#[test]
fn unreadable_body_at_a_success_status_is_malformed() {
    assert_eq!(interpret(200, "not json"), Err(malformed("not json")));
    assert_eq!(interpret(200, ""), Err(malformed("")));
    assert_eq!(interpret(204, "<html></html>"), Err(malformed("<html></html>")));
}

#[test]
fn json_of_another_shape_at_a_success_status_is_malformed() {
    for body in [
        "[]",
        "null",
        "\"text\"",
        "17",
        r#"{"choices":{}}"#,
        r#"{"choices":"none"}"#,
        r#"{"choices":[{}]}"#,
        r#"{"choices":[{"message":null}]}"#,
        r#"{"choices":[{"message":"hello"}]}"#,
        r#"{"choices":[{"message":{"content":5}}]}"#,
        r#"{"choices":[{"message":{"content":"x"},"finish_reason":3}]}"#,
        r#"{"choices":[{"message":{"content":"x"}}, 5]}"#,
        r#"{"choices":[],"usage":{"prompt_tokens":1,"completion_tokens":2}}"#,
        r#"{"choices":[],"usage":{"prompt_tokens":-1,"completion_tokens":2,"total_tokens":1}}"#,
        r#"{"choices":[],"usage":{"prompt_tokens":1.5,"completion_tokens":2,"total_tokens":3}}"#,
        r#"{"choices":[],"usage":{"prompt_tokens":4294967296,"completion_tokens":2,"total_tokens":3}}"#,
        r#"{"choices":[],"usage":7}"#,
        r#"{"choices":[],"error":"broken"}"#,
        r#"{"choices":[],"error":{"message":"m"}}"#,
        r#"{"choices":[],"error":{"type":"t"}}"#,
        r#"{"choices":[],"error":{"message":null,"type":"t"}}"#,
    ] {
        assert_eq!(interpret(200, body), Err(malformed(body)));
    }
}

#[test]
fn json_of_another_shape_at_a_failure_status_is_an_http_error() {
    for body in ["[]", r#"{"choices":{}}"#, r#"{"error":"broken"}"#, r#"{"error":{"message":"m"}}"#] {
        assert_eq!(interpret(500, body), Err(http_error(500, body)));
    }
}

#[test]
fn response_without_error_at_a_failure_status_is_an_http_error() {
    let body = r#"{"choices":[{"message":{"content":"HELLO"}}]}"#;
    assert_eq!(interpret(404, body), Err(http_error(404, body)));
    assert_eq!(interpret(199, body), Err(http_error(199, body)));
    assert_eq!(interpret(300, body), Err(http_error(300, body)));
    assert_eq!(interpret(500, "{}"), Err(http_error(500, "{}")));
}

#[test]
fn members_left_out_or_null_count_as_not_given() {
    assert_eq!(interpret(200, "{}"), Err(InterpretError::NoChoices));
    assert_eq!(interpret(200, r#"{"choices":null}"#), Err(InterpretError::NoChoices));
    assert_eq!(
        interpret(200, r#"{"choices":[],"usage":null,"error":null}"#),
        Err(InterpretError::NoChoices)
    );
    let body = r#"{"choices":[{"message":{},"finish_reason":null}],"error":null}"#;
    assert_eq!(interpret(200, body), Ok(String::new()));
}

#[test]
fn text_is_kept_character_by_character() {
    let body = r#"{"choices":[{"message":{"content":"line one\nline \"two\" \u00e9\u4e2d"}}]}"#;
    assert_eq!(interpret(200, body), Ok("line one\nline \"two\" \u{e9}\u{4e2d}".to_string()));
}

#[test]
fn success_is_the_range_from_200_to_299() {
    assert!(!status_is_success(0));
    assert!(!status_is_success(199));
    assert!(status_is_success(200));
    assert!(status_is_success(204));
    assert!(status_is_success(299));
    assert!(!status_is_success(300));
    assert!(!status_is_success(404));
    assert!(!status_is_success(u16::MAX));
}

#[test]
fn decode_reads_every_part_of_a_response() {
    let document = Json::Object(vec![
        member(
            "choices",
            Json::Array(vec![
                Json::Object(vec![
                    member("message", Json::Object(vec![member("content", text("first"))])),
                    member("finish_reason", text("stop")),
                ]),
                Json::Object(vec![member("message", Json::Object(Vec::new()))]),
            ]),
        ),
        member(
            "usage",
            Json::Object(vec![
                member("prompt_tokens", Json::Number(Some(3))),
                member("completion_tokens", Json::Number(Some(4))),
                member("total_tokens", Json::Number(Some(u32::MAX as u64))),
            ]),
        ),
        member(
            "error",
            Json::Object(vec![member("message", text("m")), member("type", text("t"))]),
        ),
        member("ignored", Json::Bool(true)),
    ]);
    assert_eq!(
        decode_response(&document),
        Some(CompletionResponse {
            choices: vec![choice(Some("first"), Some("stop")), choice(None, None)],
            usage: Some(Usage { prompt_tokens: 3, completion_tokens: 4, total_tokens: u32::MAX }),
            error: Some(ErrorRecord { message: "m".to_string(), kind: "t".to_string() }),
        })
    );
}

#[test]
fn decode_takes_an_empty_object_for_an_empty_response() {
    assert_eq!(
        decode_response(&Json::Object(Vec::new())),
        Some(CompletionResponse { choices: Vec::new(), usage: None, error: None })
    );
}

#[test]
fn decode_rejects_what_is_no_object() {
    assert_eq!(decode_response(&Json::Null), None);
    assert_eq!(decode_response(&Json::Array(Vec::new())), None);
    assert_eq!(decode_response(&text("{}")), None);
    assert_eq!(decode_response(&Json::Number(Some(1))), None);
    assert_eq!(decode_response(&Json::Bool(false)), None);
}

#[test]
fn decode_rejects_a_count_beyond_32_bits() {
    let document = Json::Object(vec![member(
        "usage",
        Json::Object(vec![
            member("prompt_tokens", Json::Number(Some(1))),
            member("completion_tokens", Json::Number(Some(u32::MAX as u64 + 1))),
            member("total_tokens", Json::Number(Some(2))),
        ]),
    )]);
    assert_eq!(decode_response(&document), None);
}

#[test]
fn classify_follows_the_order_of_the_channels() {
    let with_error = || CompletionResponse {
        choices: vec![choice(Some("text"), None)],
        usage: None,
        error: Some(ErrorRecord { message: "m".to_string(), kind: "k".to_string() }),
    };
    let with_text = || CompletionResponse {
        choices: vec![choice(Some("text"), Some("stop")), choice(Some("other"), None)],
        usage: Some(Usage { prompt_tokens: 1, completion_tokens: 1, total_tokens: 2 }),
        error: None,
    };
    let without_choices = || CompletionResponse { choices: Vec::new(), usage: None, error: None };
    assert_eq!(classify(200, "body", Some(with_error())), Err(api_error("m", "k")));
    assert_eq!(classify(500, "body", Some(with_error())), Err(api_error("m", "k")));
    assert_eq!(classify(500, "body", Some(with_text())), Err(http_error(500, "body")));
    assert_eq!(classify(500, "body", Some(without_choices())), Err(http_error(500, "body")));
    assert_eq!(classify(500, "body", None), Err(http_error(500, "body")));
    assert_eq!(classify(200, "body", None), Err(malformed("body")));
    assert_eq!(classify(200, "body", Some(without_choices())), Err(InterpretError::NoChoices));
    assert_eq!(classify(200, "body", Some(with_text())), Ok("text".to_string()));
}

#[test]
fn classify_takes_absent_content_for_the_empty_text() {
    let response = CompletionResponse {
        choices: vec![choice(None, Some("stop")), choice(Some("later"), None)],
        usage: None,
        error: None,
    };
    assert_eq!(classify(200, "body", Some(response)), Ok(String::new()));
}

#[test]
fn interpret_document_decodes_and_classifies() {
    let hello = Json::Object(vec![member(
        "choices",
        Json::Array(vec![Json::Object(vec![member(
            "message",
            Json::Object(vec![member("content", text("HELLO"))]),
        )])]),
    )]);
    assert_eq!(interpret_document(200, "raw", Some(hello)), Ok("HELLO".to_string()));
    assert_eq!(interpret_document(200, "raw", None), Err(malformed("raw")));
    assert_eq!(interpret_document(502, "raw", None), Err(http_error(502, "raw")));
    assert_eq!(interpret_document(200, "raw", Some(Json::Array(Vec::new()))), Err(malformed("raw")));
    assert_eq!(
        interpret_document(200, "raw", Some(Json::Object(Vec::new()))),
        Err(InterpretError::NoChoices)
    );
}
