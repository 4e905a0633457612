use codex_pulse::app_server::{
    account_read_params, classify_response, empty_object, initialize_params, notification_message,
    reply_line_step, request_message, RequestIds, ResponseStep,
};
use codex_pulse::json::{Json, JsonNumber};

fn text(s: &str) -> Json {
    Json::Str(s.to_string())
}

fn uint(n: u64) -> Json {
    Json::Number(JsonNumber {
        text: n.to_string(),
        unsigned: Some(n),
        signed: i64::try_from(n).ok(),
    })
}

fn object(entries: Vec<(&str, Json)>) -> Json {
    Json::Object(entries.into_iter().map(|(k, v)| (k.to_string(), v)).collect())
}

fn keys(value: &Json) -> Vec<String> {
    match value {
        Json::Object(entries) => entries.iter().map(|(k, _)| k.clone()).collect(),
        _ => Vec::new(),
    }
}

#[test]
fn request_ids_count_up_from_one() {
    let mut ids = RequestIds::new();
    assert_eq!(ids.take(), 1);
    assert_eq!(ids.take(), 2);
    assert_eq!(ids.take(), 3);
}

#[test]
fn request_ids_can_be_taken_while_below_the_limit() {
    let mut ids = RequestIds::new();
    assert!(ids.can_take());
    ids.take();
    assert!(ids.can_take());
}

#[test]
fn builds_messages() {
    let message = request_message("account/read", 7, account_read_params());
    assert_eq!(keys(&message), vec!["id", "method", "params"]);
    match &message {
        Json::Object(entries) => {
            match &entries[0].1 {
                Json::Number(n) => {
                    assert_eq!(n.text, "7");
                    assert_eq!(n.unsigned, Some(7));
                }
                _ => panic!("id is not a number"),
            }
            match &entries[1].1 {
                Json::Str(s) => assert_eq!(s, "account/read"),
                _ => panic!("method is not a string"),
            }
            assert_eq!(keys(&entries[2].1), vec!["refreshToken"]);
        }
        _ => panic!("not an object"),
    }
    let note = notification_message("initialized", empty_object());
    assert_eq!(keys(&note), vec!["method", "params"]);
    let init = initialize_params("1.2.3");
    assert_eq!(keys(&init), vec!["capabilities", "clientInfo"]);
}

#[test]
fn skips_messages_for_other_requests() {
    let other = object(vec![("id", uint(4)), ("result", text("x"))]);
    assert!(matches!(classify_response(other, 5), ResponseStep::Skip));
    let notification = object(vec![("method", text("event"))]);
    assert!(matches!(classify_response(notification, 5), ResponseStep::Skip));
}

#[test]
fn reads_results_and_errors() {
    let ok = object(vec![("id", uint(5)), ("result", text("done"))]);
    match classify_response(ok, 5) {
        ResponseStep::Reply(Ok(Json::Str(s))) => assert_eq!(s, "done"),
        _ => panic!("expected a result"),
    }
    let failed = object(vec![
        ("error", object(vec![("message", text("boom"))])),
        ("id", uint(5)),
    ]);
    match classify_response(failed, 5) {
        ResponseStep::Reply(Err(message)) => assert_eq!(message, "boom"),
        _ => panic!("expected an error"),
    }
    let bare_error = object(vec![("error", Json::Null), ("id", uint(5))]);
    match classify_response(bare_error, 5) {
        ResponseStep::Reply(Err(message)) => {
            assert_eq!(message, "Codex app-server 요청이 실패했습니다.")
        }
        _ => panic!("expected an error"),
    }
    let empty = object(vec![("id", uint(5))]);
    match classify_response(empty, 5) {
        ResponseStep::Reply(Err(message)) => {
            assert_eq!(message, "Codex app-server 응답에 result가 없습니다.")
        }
        _ => panic!("expected an error"),
    }
}

#[test]
fn reads_reply_lines() {
    match reply_line_step("{\"id\":7,\"result\":{\"count\":3,\"ratio\":0.5}}\n", 7) {
        ResponseStep::Reply(Ok(Json::Object(entries))) => {
            assert_eq!(entries.len(), 2);
            assert_eq!(entries[0].0, "count");
            match &entries[0].1 {
                Json::Number(n) => {
                    assert_eq!(n.text, "3");
                    assert_eq!(n.unsigned, Some(3));
                    assert_eq!(n.signed, Some(3));
                }
                _ => panic!("expected a number"),
            }
            assert_eq!(entries[1].0, "ratio");
            match &entries[1].1 {
                Json::Number(n) => {
                    assert_eq!(n.text, "0.5");
                    assert_eq!(n.unsigned, None);
                    assert_eq!(n.signed, None);
                }
                _ => panic!("expected a number"),
            }
        }
        _ => panic!("expected a result object"),
    }
    assert!(matches!(
        reply_line_step("{\"id\":8,\"result\":null}", 7),
        ResponseStep::Skip
    ));
    match reply_line_step("{\"id\":7,\"error\":{\"message\":\"nope\"}}", 7) {
        ResponseStep::Reply(Err(message)) => assert_eq!(message, "nope"),
        _ => panic!("expected an error"),
    }
}

#[test]
fn malformed_reply_lines_fail_the_request() {
    match reply_line_step("not json\n", 7) {
        ResponseStep::Reply(Err(message)) => {
            assert!(message.starts_with("Codex app-server 응답 형식이 올바르지 않습니다: "));
            assert!(message.len() > "Codex app-server 응답 형식이 올바르지 않습니다: ".len());
        }
        _ => panic!("expected a failed reply"),
    }
}
