use azvault::json::JsonValue;
use azvault::paging::{collect_pages, page_next, page_take_items};
use azvault::retry::{backoff_secs, request_gate, retry_step, HttpOutcome, RetryDecision};

fn obj(fields: Vec<(&str, JsonValue)>) -> JsonValue {
    JsonValue::Obj(fields.into_iter().map(|(k, v)| (k.to_string(), v)).collect())
}

fn s(text: &str) -> JsonValue {
    JsonValue::Str(text.to_string())
}

fn response(status: u16, retry_after: Option<u64>, body: JsonValue) -> HttpOutcome {
    HttpOutcome::Response { status, retry_after, body }
}

#[test]
fn backoff_doubles_from_one_and_caps_at_eight() {
    assert_eq!(backoff_secs(0), 1);
    assert_eq!(backoff_secs(1), 2);
    assert_eq!(backoff_secs(2), 4);
    assert_eq!(backoff_secs(3), 8);
    assert_eq!(backoff_secs(9), 8);
}

#[test]
fn transient_503_then_200_returns_the_success_body() {
    // First attempt: 503 with no hint waits one second (the backoff
    // schedule's first step) ...
    let first = retry_step(0, response(503, None, obj(vec![])));
    assert!(matches!(first, RetryDecision::Wait(1)));
    // ... and the retry's 200 ends the exchange with its body: no
    // further waits.
    let second = retry_step(1, response(200, None, obj(vec![("ok", JsonValue::Bool(true))])));
    match second {
        RetryDecision::Success(body) => {
            assert_eq!(azvault::json::json_text(&body), "{\"ok\":true}");
        }
        _ => panic!("expected the 200 body"),
    }
}

#[test]
fn rate_limit_honours_retry_after_header() {
    // A 429 carrying Retry-After: 5 waits those five seconds, not the
    // exponential default.
    let d = retry_step(0, response(429, Some(5), obj(vec![])));
    assert!(matches!(d, RetryDecision::Wait(5)));
    // Without the header the exponential schedule applies.
    let d = retry_step(2, response(429, None, obj(vec![])));
    assert!(matches!(d, RetryDecision::Wait(4)));
}

#[test]
fn transient_failures_stop_after_the_retry_ceiling() {
    let d = retry_step(3, response(503, None, obj(vec![])));
    match d {
        RetryDecision::Fail(e) => assert!(e.starts_with("[503]")),
        _ => panic!("expected a terminal error after the ceiling"),
    }
}

#[test]
fn transport_errors_retry_then_fail_with_reason() {
    let d = retry_step(1, HttpOutcome::Transport("connection refused".to_string()));
    assert!(matches!(d, RetryDecision::Wait(2)));
    let d = retry_step(3, HttpOutcome::Transport("connection refused".to_string()));
    match d {
        RetryDecision::Fail(e) => assert_eq!(e, "Network error: connection refused"),
        _ => panic!("expected a terminal network error"),
    }
}

#[test]
fn terminal_status_is_never_retried() {
    let body = obj(vec![("error", obj(vec![("code", s("BadRequest")), ("message", s("nope"))]))]);
    let d = retry_step(0, response(400, None, body));
    match d {
        RetryDecision::Fail(e) => assert_eq!(e, "[400] BadRequest: nope"),
        _ => panic!("expected a terminal error"),
    }
}

#[test]
fn gate_blocks_before_any_attempt() {
    assert!(request_gate("https://management.azure.com/tenants").is_ok());
    let err = request_gate("https://evil.example.com/x").unwrap_err();
    assert_eq!(err, "Blocked outbound request to non-Azure endpoint.");
}

fn page(names: Vec<&str>, next: Option<&str>) -> JsonValue {
    let items: Vec<JsonValue> = names.into_iter().map(s).collect();
    let mut fields = vec![("value", JsonValue::Arr(items))];
    if let Some(n) = next {
        fields.push(("nextLink", s(n)));
    }
    obj(fields)
}

#[test]
fn pagination_flattens_three_pages_in_order() {
    let p1 = page(vec!["a", "b"], Some("https://v.vault.azure.net/secrets?page=2"));
    let p2 = page(vec!["c"], Some("https://v.vault.azure.net/secrets?page=3"));
    let p3 = page(vec!["d", "e"], None);

    // The continuation cursor drives exactly three fetches: two pages
    // announce a successor, the third does not.
    assert_eq!(
        page_next(&p1).as_deref(),
        Some("https://v.vault.azure.net/secrets?page=2")
    );
    assert_eq!(
        page_next(&p2).as_deref(),
        Some("https://v.vault.azure.net/secrets?page=3")
    );
    assert!(page_next(&p3).is_none());

    let flat = collect_pages(vec![p1, p2, p3]);
    let names: Vec<String> = flat
        .iter()
        .map(|v| match v {
            JsonValue::Str(name) => name.clone(),
            _ => panic!("string item expected"),
        })
        .collect();
    assert_eq!(names, vec!["a", "b", "c", "d", "e"]);
}

#[test]
fn page_without_value_array_yields_nothing() {
    let p = obj(vec![("unrelated", s("x"))]);
    assert!(page_take_items(p).is_empty());
}
