use lobster_waku_gateway::query::{parse_sse_wait_ms, query_limit, split_path_and_query, trimmed_param};

#[test]
fn split_path_and_query_decodes_percent_escaped_components() {
    let (_, params) = split_path_and_query(
        "/v1/cli/tail?for=agent%3Acodex&conversation_id=dm%3Aopenclaw%3Arsaga",
    );

    assert_eq!(params.get("for").map(String::as_str), Some("agent:codex"));
    assert_eq!(
        params.get("conversation_id").map(String::as_str),
        Some("dm:openclaw:rsaga")
    );
}

#[test]
fn split_path_and_query_keeps_unescaped_query_components_intact() {
    let (path, params) =
        split_path_and_query("/v1/export?for=user:rsaga&format=jsonl&include_public=true");

    assert_eq!(path, "/v1/export");
    assert_eq!(params.get("for").map(String::as_str), Some("user:rsaga"));
    assert_eq!(params.get("format").map(String::as_str), Some("jsonl"));
    assert_eq!(
        params.get("include_public").map(String::as_str),
        Some("true")
    );
}

fn wait_ms_of(url: &str) -> u64 {
    let (_, params) = split_path_and_query(url);
    parse_sse_wait_ms(params.get("wait_ms").map(String::as_str))
}

#[test]
fn shell_events_wait_ms_zero_returns_immediately_without_waiting() {
    assert_eq!(
        wait_ms_of("/v1/shell/events?resident_id=qa-a&after=v1&wait_ms=0"),
        0
    );
}

#[test]
fn shell_events_missing_wait_ms_defaults_to_zero() {
    assert_eq!(wait_ms_of("/v1/shell/events?resident_id=qa-a"), 0);
}

#[test]
fn shell_events_wait_ms_capped_at_5000() {
    assert_eq!(
        wait_ms_of("/v1/shell/events?resident_id=qa-a&after=v1&wait_ms=99999"),
        5000
    );
}

#[test]
fn shell_events_invalid_wait_ms_defaults_to_zero() {
    assert_eq!(wait_ms_of("/v1/shell/events?resident_id=qa-a&wait_ms=abc"), 0);
}

#[test]
fn shell_events_negative_wait_ms_defaults_to_zero() {
    assert_eq!(wait_ms_of("/v1/shell/events?resident_id=qa-a&wait_ms=-100"), 0);
}

#[test]
fn sse_wait_accepts_plus_sign_and_surrounding_whitespace() {
    assert_eq!(parse_sse_wait_ms(Some(" +1500 ")), 1500);
    assert_eq!(parse_sse_wait_ms(Some("5000")), 5000);
    assert_eq!(parse_sse_wait_ms(Some("5001")), 5000);
    assert_eq!(parse_sse_wait_ms(Some("")), 0);
    assert_eq!(parse_sse_wait_ms(Some("18446744073709551616")), 0);
    assert_eq!(parse_sse_wait_ms(Some("18446744073709551615")), 5000);
    assert_eq!(parse_sse_wait_ms(None), 0);
}

#[test]
fn path_without_query_has_no_parameters() {
    let (path, params) = split_path_and_query("/v1/world");
    assert_eq!(path, "/v1/world");
    assert!(params.pairs.is_empty());
}

#[test]
fn later_parameter_wins_and_empty_segments_are_skipped() {
    let (path, params) = split_path_and_query("/x?a=1&&a=2&flag&b=%zz%4");
    assert_eq!(path, "/x");
    assert_eq!(params.get("a").map(String::as_str), Some("2"));
    assert_eq!(params.get("flag").map(String::as_str), Some(""));
    assert_eq!(params.get("b").map(String::as_str), Some("%zz%4"));
    assert_eq!(params.get("missing"), None);
    assert_eq!(params.pairs.len(), 4);
}

#[test]
fn percent_decoding_reads_utf8_and_keeps_invalid_bytes_raw() {
    let (_, params) = split_path_and_query("/x?name=%E5%A4%9C%E7%AA%97&bad=%FF");
    assert_eq!(params.get("name").map(String::as_str), Some("夜窗"));
    assert_eq!(params.get("bad").map(String::as_str), Some("%FF"));
}

#[test]
fn limits_default_cap_and_ignore_garbage() {
    let (_, none) = split_path_and_query("/v1/admin/messages");
    assert_eq!(query_limit(&none, 50, 200), 50);
    let (_, big) = split_path_and_query("/v1/admin/messages?limit=1000");
    assert_eq!(query_limit(&big, 50, 200), 200);
    let (_, small) = split_path_and_query("/v1/admin/messages?limit=%2012%20");
    assert_eq!(query_limit(&small, 50, 200), 12);
    let (_, bad) = split_path_and_query("/v1/admin/audit-log?limit=ten");
    assert_eq!(query_limit(&bad, 100, 500), 100);
}

#[test]
fn trimmed_parameters_drop_blank_values() {
    let (_, params) = split_path_and_query("/v1/shell/state?resident_id=%20qa-a%20&after=%20%20");
    assert_eq!(trimmed_param(&params, "resident_id").as_deref(), Some("qa-a"));
    assert_eq!(trimmed_param(&params, "after"), None);
    assert_eq!(trimmed_param(&params, "missing"), None);
}
