use lobster_waku_gateway::dispatch::{dispatch_admin_read, dispatch_admin_write, with_runtime};
use lobster_waku_gateway::query::split_path_and_query;
use lobster_waku_gateway::responses::{fixed_reply, BodyKind};
use lobster_waku_gateway::routing::{route_request, Gate, HttpMethod, Route};

fn routed(method: HttpMethod, url: &str) -> (Route, Gate) {
    let (path, _) = split_path_and_query(url);
    let decision = route_request(method, &path);
    (decision.route, decision.gate)
}

#[test]
fn http_boundary_routes_return_health_cors_and_not_found_contract() {
    let (route, _) = routed(HttpMethod::Get, "/health");
    let health = fixed_reply(route).expect("health is answered at once");
    assert_eq!(health.status, 200);
    assert_eq!(health.kind, BodyKind::Text);
    assert_eq!(health.body, "ok");

    assert_eq!(routed(HttpMethod::Get, "/v1/version").0, Route::GetVersion);

    let (head_route, _) = routed(HttpMethod::Head, "/health");
    assert_eq!(fixed_reply(head_route).expect("head health").status, 200);

    let (options_route, _) = routed(HttpMethod::Options, "/v1/shell/message");
    let options = fixed_reply(options_route).expect("preflight");
    assert_eq!(options.status, 204);
    assert!(options.body.is_empty());

    let (missing_route, _) = routed(HttpMethod::Get, "/v1/does-not-exist");
    let missing = fixed_reply(missing_route).expect("not found");
    assert_eq!(missing.status, 404);
    assert_eq!(missing.kind, BodyKind::Text);
    assert_eq!(missing.body, "not found");
}

#[test]
fn admin_reads_are_gated_and_writes_of_provider_too() {
    assert_eq!(routed(HttpMethod::Get, "/v1/admin/summary"), (Route::GetAdminSummary, Gate::AdminRead));
    assert_eq!(routed(HttpMethod::Get, "/v1/admin/devices"), (Route::GetAdminDevices, Gate::AdminRead));
    assert_eq!(routed(HttpMethod::Get, "/v1/admin/capabilities"), (Route::GetCapabilityCatalog, Gate::Open));
    assert_eq!(routed(HttpMethod::Post, "/v1/provider/connect"), (Route::PostProviderConnect, Gate::AdminWrite));
    assert_eq!(routed(HttpMethod::Post, "/v1/world-mirror-sources"), (Route::PostWorldMirrorSources, Gate::AdminWrite));
    assert_eq!(routed(HttpMethod::Get, "/v1/world-mirror-sources"), (Route::GetWorldMirrorSources, Gate::Open));
    assert_eq!(routed(HttpMethod::Post, "/v1/admin/residents/ban"), (Route::PostAdminBanResident, Gate::Open));
}

#[test]
fn query_does_not_change_the_route_and_methods_matter() {
    assert_eq!(routed(HttpMethod::Get, "/v1/cli/tail?for=agent%3Acodex").0, Route::GetCliTail);
    assert_eq!(routed(HttpMethod::Post, "/v1/cli/tail").0, Route::NotFound);
    assert_eq!(routed(HttpMethod::Head, "/v1/world").0, Route::NotFound);
    assert_eq!(routed(HttpMethod::Post, "/v1/cities").0, Route::PostCreateCity);
    assert_eq!(routed(HttpMethod::Get, "/v1/cities").0, Route::GetCities);
    assert_eq!(routed(HttpMethod::Options, "/anything/at/all").0, Route::Preflight);
    assert_eq!(routed(HttpMethod::Post, "/v1/waku").0, Route::PostWaku);
    assert_eq!(routed(HttpMethod::Post, "/v1/admin/residents/unsanction").0, Route::PostUnsanctionResident);
}

#[test]
fn attachment_downloads_match_by_prefix() {
    assert_eq!(routed(HttpMethod::Get, "/v1/shell/attachment/att-1").0, Route::GetShellAttachment);
    assert_eq!(routed(HttpMethod::Get, "/v1/shell/attachment/").0, Route::GetShellAttachment);
    assert_eq!(routed(HttpMethod::Post, "/v1/shell/attachment").0, Route::PostShellAttachment);
    assert_eq!(routed(HttpMethod::Get, "/v1/shell/attachment").0, Route::NotFound);
    assert_eq!(routed(HttpMethod::Post, "/v1/shell/attachment/att-1").0, Route::NotFound);
}

#[test]
fn admin_gate_answers_refusal_or_runs_handler() {
    assert_eq!(dispatch_admin_read(Some(401u16), || 200u16), 401);
    assert_eq!(dispatch_admin_read(None, || 200u16), 200);
    assert_eq!(dispatch_admin_write(Some(403u16), 7u32, |n| n as u16), 403);
    assert_eq!(dispatch_admin_write(None, 7u32, |n| n as u16 + 1), 8);
}

#[test]
fn a_poisoned_runtime_lock_is_answered_with_a_json_500() {
    let healthy = with_runtime(Ok(20u32), |n| n + 1);
    assert_eq!(healthy.ok(), Some(21));
    let ran = std::cell::Cell::new(false);
    let poisoned = with_runtime(Err(20u32), |n| {
        ran.set(true);
        n * 2
    });
    assert!(!ran.get());
    let reply = poisoned.err().expect("a poisoned lock is refused");
    assert_eq!(reply.status, 500);
    assert_eq!(reply.kind, BodyKind::Json);
    assert_eq!(reply.body, r#"{"Error":{"message":"gateway runtime unavailable"}}"#);
}
