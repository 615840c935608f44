use lobster_waku_gateway::query::split_path_and_query;
use lobster_waku_gateway::responses::BodyKind;
use lobster_waku_gateway::requests::{
    cli_search_request, message_search_request,
    admin_messages_query, cli_for_param, cli_viewer, empty_message_audit, filter_residents,
    moderation_message_id, required_resident_id, required_search_text, resident_search,
    sse_body, sse_has_new_state, sse_reply, sse_heartbeat, sse_should_answer, text_contains,
    ResidentDirectoryEntry,
};

fn params(url: &str) -> lobster_waku_gateway::query::QueryParams {
    split_path_and_query(url).1
}

#[test]
fn admin_message_queries() {
    let (id, limit) = admin_messages_query(&params("/x?conversation_id=room%3Aa&limit=500"))
        .expect("conversation given");
    assert_eq!(id.0, "room:a");
    assert_eq!(limit, 200);
    let missing = admin_messages_query(&params("/x?conversation_id=%20")).expect_err("blank");
    assert_eq!(missing.status, 400);
    assert_eq!(missing.body, "{\"error\":\"conversation_id query parameter required\"}");
    assert_eq!(empty_message_audit().body, "{\"messages\":[],\"total_count\":0,\"returned_count\":0}");
    assert_eq!(moderation_message_id(&params("/x?message_id=%20m1")).expect("id"), " m1");
    assert_eq!(moderation_message_id(&params("/x")).expect_err("no id").status, 400);
}

#[test]
fn search_parameters() {
    assert_eq!(required_resident_id(&params("/x?resident_id=%20qa-a")).expect("resident"), "qa-a");
    let no_resident = required_resident_id(&params("/x")).expect_err("missing");
    assert_eq!(no_resident.body, "{\"Error\":{\"message\":\"resident_id query parameter required\"}}");
    assert_eq!(required_search_text(&params("/x?q=%20keyword_xyz%20")).expect("q"), "keyword_xyz");
    assert_eq!(required_search_text(&params("/x?q=")).expect_err("blank q").status, 400);
}

#[test]
fn cli_parameters() {
    let missing = cli_for_param(&params("/v1/cli/inbox")).expect_err("no for");
    assert_eq!(missing.status, 400);
    assert_eq!(missing.body, "{\"message\":\"missing for\"}");
    assert_eq!(cli_for_param(&params("/v1/cli/inbox?for=agent%3Acodex")).expect("for"), "agent:codex");
    assert!(cli_viewer("agent:codex").is_ok());
    let bad = cli_viewer("foo:bar").expect_err("bad address");
    assert_eq!(bad.body, "{\"Error\":{\"message\":\"unsupported cli address: foo:bar\"}}");
}

#[test]
fn shell_event_stream_pieces() {
    assert!(sse_has_new_state(&params("/v1/shell/events"), "v1"));
    assert!(sse_has_new_state(&params("/v1/shell/events?after=%20%20"), "v1"));
    assert!(sse_has_new_state(&params("/v1/shell/events?after=v1"), "v2"));
    assert!(!sse_has_new_state(&params("/v1/shell/events?after=v2"), "v2"));
    assert!(!sse_has_new_state(&params("/v1/shell/events?after=%20v2%20"), "v2"));
    assert!(sse_should_answer(false, 0, false));
    assert!(sse_should_answer(false, 10, true));
    assert!(!sse_should_answer(false, 10, false));
    assert_eq!(sse_heartbeat(12, Some("qa-a")), "{\"now_ms\":12,\"resident_id\":\"qa-a\"}");
    assert_eq!(sse_heartbeat(0, None), "{\"now_ms\":0,\"resident_id\":null}");
    let body = sse_body("{\"state_version\":\"v1\"}", "{\"now_ms\":1,\"resident_id\":null}");
    let reply = sse_reply("{}", "{\"now_ms\":1,\"resident_id\":null}");
    assert_eq!(reply.status, 200);
    assert_eq!(reply.kind, BodyKind::EventStream);
    assert!(reply.body.starts_with("retry: 4000\nevent: shell-state\ndata: {}\n\n"));
    assert!(body.starts_with("retry: 4000\nevent: shell-state\ndata: {"));
    assert!(body.contains("\n\nevent: shell-heartbeat\ndata: "));
    assert!(body.ends_with("}\n\n"));
    let data = body
        .split("event: shell-state\ndata: ")
        .nth(1)
        .and_then(|value| value.split("\n\n").next())
        .expect("sse shell-state payload");
    assert_eq!(data, "{\"state_version\":\"v1\"}");
}

fn entry(id: &str, cities: &[&str], roles: &[&str]) -> ResidentDirectoryEntry {
    ResidentDirectoryEntry {
        resident_id: id.into(),
        active_cities: cities.iter().map(|c| c.to_string()).collect(),
        roles: roles.iter().map(|r| r.to_string()).collect(),
    }
}

#[test]
fn resident_directory_search() {
    assert!(text_contains("core-harbor", "harb"));
    assert!(text_contains("x", ""));
    assert!(!text_contains("ab", "abc"));
    let search = resident_search(&params("/v1/residents?q=%20HARBOR%20"));
    assert_eq!(search.as_deref(), Some("harbor"));
    assert_eq!(resident_search(&params("/v1/residents?q=%20")), None);
    let entries = vec![
        entry("rsaga", &["city:core-harbor"], &["Lord"]),
        entry("Builder", &[], &["Steward"]),
        entry("tiyan", &["city:aurora-hub"], &["Resident"]),
    ];
    let found = filter_residents(entries, search);
    assert_eq!(found.len(), 1);
    assert_eq!(found[0].resident_id, "rsaga");
    let entries = vec![entry("Builder", &[], &["Steward"]), entry("tiyan", &[], &[])];
    assert_eq!(filter_residents(entries, Some("build".into())).len(), 1);
    let entries = vec![entry("a", &[], &[]), entry("b", &[], &[])];
    assert_eq!(filter_residents(entries, None).len(), 2);
}

#[test]
fn search_requests_check_their_parameters_in_order() {
    let missing_for = cli_search_request(&params("/v1/cli/search?q=hi")).expect_err("no for");
    assert_eq!(missing_for.body, "{\"message\":\"missing for\"}");
    let blank_q = cli_search_request(&params("/v1/cli/search?for=user:a&q=%20")).expect_err("blank q");
    assert_eq!(blank_q.body, "{\"Error\":{\"message\":\"q query parameter required\"}}");
    let (raw_for, q, room, limit) =
        cli_search_request(&params("/v1/cli/search?for=user:a&q=%20hi%20&room_id=%20r1&limit=500")).expect("ok");
    assert_eq!((raw_for.as_str(), q.as_str(), room.as_deref(), limit), ("user:a", "hi", Some("r1"), 200));
    let (_, _, room, limit) = cli_search_request(&params("/v1/cli/search?for=user:a&q=hi&room_id=%20")).expect("ok");
    assert_eq!((room, limit), (None, 50));
    let no_resident = message_search_request(&params("/v1/messages/search?q=hi")).expect_err("no resident");
    assert_eq!(no_resident.body, "{\"Error\":{\"message\":\"resident_id query parameter required\"}}");
    let blank_q = message_search_request(&params("/v1/messages/search?resident_id=a")).expect_err("no q");
    assert_eq!(blank_q.status, 400);
    let (resident, q, room, limit) =
        message_search_request(&params("/v1/messages/search?resident_id=%20a%20&q=x&limit=7")).expect("ok");
    assert_eq!((resident.as_str(), q.as_str(), room, limit), ("a", "x", None, 7));
}
