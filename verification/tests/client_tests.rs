use weibo_actions::client::{interpret, into_outcome, status_failure, decoded, status_is_success, ActionResult, ErrorKind, Reply, TIMEOUT_SECONDS};
use weibo_actions::json::Json;

fn text(s: &str) -> Json {
    Json::Text(s.to_string())
}

fn object(members: Vec<(&str, Json)>) -> Json {
    Json::Object(members.into_iter().map(|(k, v)| (k.to_string(), v)).collect())
}

#[test]
fn non_success_status_is_a_status_error() {
    assert_eq!(
        interpret(Reply::Answered(404, "{\"ok\":1}".to_string())),
        ActionResult::Failure(ErrorKind::HttpStatusError, "404 Not Found".to_string())
    );
    assert_eq!(
        interpret(Reply::Answered(500, "oops".to_string())),
        ActionResult::Failure(ErrorKind::HttpStatusError, "500 Internal Server Error".to_string())
    );
    assert_eq!(
        interpret(Reply::Answered(302, String::new())),
        ActionResult::Failure(ErrorKind::HttpStatusError, "302 Found".to_string())
    );
}

#[test]
fn status_edges() {
    assert!(!status_is_success(199));
    assert!(status_is_success(200));
    assert!(status_is_success(299));
    assert!(!status_is_success(300));
    assert_eq!(
        interpret(Reply::Answered(199, "{}".to_string())),
        ActionResult::Failure(ErrorKind::HttpStatusError, "199 ".to_string())
    );
    assert_eq!(
        interpret(Reply::Answered(300, "{}".to_string())),
        ActionResult::Failure(ErrorKind::HttpStatusError, "300 Multiple Choices".to_string())
    );
    assert_eq!(interpret(Reply::Answered(299, "{}".to_string())), ActionResult::Success(object(vec![])));
}

#[test]
fn status_without_reason_or_out_of_range() {
    assert_eq!(
        interpret(Reply::Answered(599, String::new())),
        ActionResult::Failure(ErrorKind::HttpStatusError, "599 ".to_string())
    );
    assert_eq!(
        interpret(Reply::Answered(42, String::new())),
        ActionResult::Failure(ErrorKind::HttpStatusError, "42 ".to_string())
    );
    assert_eq!(
        interpret(Reply::Answered(65535, String::new())),
        ActionResult::Failure(ErrorKind::HttpStatusError, "65535 ".to_string())
    );
}

#[test]
fn status_failure_message() {
    assert_eq!(
        status_failure(418, Some("I'm a teapot".to_string())),
        ActionResult::Failure(ErrorKind::HttpStatusError, "418 I'm a teapot".to_string())
    );
    assert_eq!(
        status_failure(0, None),
        ActionResult::Failure(ErrorKind::HttpStatusError, "0 ".to_string())
    );
}

#[test]
fn success_with_body_that_is_no_json_is_a_decode_error() {
    match interpret(Reply::Answered(200, "<html>".to_string())) {
        ActionResult::Failure(kind, message) => {
            assert_eq!(kind, ErrorKind::DecodeError);
            assert!(!message.is_empty());
            assert_ne!(message, "<html>");
        }
        other => panic!("{:?}", other),
    }
    assert!(matches!(
        interpret(Reply::Answered(200, String::new())),
        ActionResult::Failure(ErrorKind::DecodeError, _)
    ));
    assert!(matches!(
        interpret(Reply::Answered(204, "{\"a\":".to_string())),
        ActionResult::Failure(ErrorKind::DecodeError, _)
    ));
}

#[test]
fn success_with_json_body_is_parsed() {
    let body = "{\"s\":\"x\",\"n\":1,\"f\":-2.5,\"b\":true,\"z\":null,\"a\":[1,\"two\",[]],\"o\":{\"k\":\"v\"}}";
    let got = interpret(Reply::Answered(200, body.to_string()));
    let ActionResult::Success(json) = got else { panic!("{:?}", got) };
    assert_eq!(json.member("s"), Some(&text("x")));
    assert_eq!(json.member("n"), Some(&Json::Number("1".to_string())));
    assert_eq!(json.member("f"), Some(&Json::Number("-2.5".to_string())));
    assert_eq!(json.member("b"), Some(&Json::Bool(true)));
    assert_eq!(json.member("z"), Some(&Json::Null));
    assert_eq!(
        json.member("a"),
        Some(&Json::Array(vec![Json::Number("1".to_string()), text("two"), Json::Array(vec![])]))
    );
    assert_eq!(json.member("o"), Some(&object(vec![("k", text("v"))])));
    assert_eq!(json.member("missing"), None);
}

#[test]
fn transport_failure_keeps_its_text() {
    assert_eq!(
        interpret(Reply::Unreachable("connection refused".to_string())),
        ActionResult::Failure(ErrorKind::NetworkError, "connection refused".to_string())
    );
}

#[test]
fn decoded_outcomes() {
    assert_eq!(decoded(Ok(Json::Null)), ActionResult::Success(Json::Null));
    assert_eq!(
        decoded(Err("bad".to_string())),
        ActionResult::Failure(ErrorKind::DecodeError, "bad".to_string())
    );
}

#[test]
fn outcome_lines() {
    assert_eq!(into_outcome(ActionResult::Success(Json::Bool(false))), Ok(Json::Bool(false)));
    assert_eq!(
        into_outcome(ActionResult::Failure(ErrorKind::HttpStatusError, "404 Not Found".to_string())),
        Err("HTTP错误: 404 Not Found".to_string())
    );
    assert_eq!(
        into_outcome(ActionResult::Failure(ErrorKind::NetworkError, "timed out".to_string())),
        Err("网络请求失败: timed out".to_string())
    );
    assert_eq!(
        into_outcome(ActionResult::Failure(ErrorKind::DecodeError, "eof".to_string())),
        Err("JSON解析失败: eof".to_string())
    );
    assert_eq!(
        into_outcome(ActionResult::Failure(ErrorKind::InvalidCookieFormat, "x".to_string())),
        Err("非法Cookie格式: x".to_string())
    );
    assert_eq!(
        into_outcome(ActionResult::Failure(ErrorKind::TopicNotFound, "x".to_string())),
        Err("未找到topicId: x".to_string())
    );
    assert_eq!(
        into_outcome(ActionResult::Failure(ErrorKind::HandshakeFailed, "x".to_string())),
        Err("未获取到clientId: x".to_string())
    );
    assert_eq!(
        into_outcome(ActionResult::Failure(ErrorKind::PlatformError, "频率过快".to_string())),
        Err("频率过快".to_string())
    );
}

#[test]
fn timeout_is_ten_seconds() {
    assert_eq!(TIMEOUT_SECONDS, 10);
}

#[test]
fn json_lookups() {
    let j = object(vec![("a", text("1")), ("b", Json::Array(vec![text("x")])), ("a", text("2"))]);
    assert_eq!(j.member("a"), Some(&text("1")));
    assert_eq!(j.member("c"), None);
    assert_eq!(j.item(0), None);
    assert_eq!(j.text(), None);
    let b = j.member("b").unwrap();
    assert_eq!(b.item(0), Some(&text("x")));
    assert_eq!(b.item(1), None);
    assert_eq!(b.member("a"), None);
    assert_eq!(text("t").text(), Some("t"));
    assert_eq!(Json::Number("1".to_string()).text(), None);
}
