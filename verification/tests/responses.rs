use lobster_waku_gateway::json::{decimal_text, json_quote};
use lobster_waku_gateway::outcomes::{
    command_reply, decode_failure_message, device_reply, email_otp_delivery_verdict, push_reply,
    upload_precheck, vapid_key_reply, CommandOutcome, DeviceOutcome, PushOutcome, UploadOutcome,
};
use lobster_waku_gateway::records::IdentityId;
use lobster_waku_gateway::routing::Route;
use lobster_waku_gateway::responses::{
    attachment_error, attachment_id_from_path, attachment_too_large, attachment_url,
    declared_mime, error_body, reply_headers, gateway_error_body, ok_json, push_error, read_failure,
    shell_gateway_base_url, unauthorized, unsubscribe_allowed, world_snapshot_url, BodyKind,
};

#[test]
fn json_strings_escape_quotes_backslashes_and_controls() {
    assert_eq!(json_quote("plain"), "\"plain\"");
    assert_eq!(json_quote("a\"b\\c"), "\"a\\\"b\\\\c\"");
    assert_eq!(json_quote("l1\nl2\tx\r\u{8}\u{c}"), "\"l1\\nl2\\tx\\r\\b\\f\"");
    assert_eq!(json_quote("\u{1}\u{1f}"), "\"\\u0001\\u001f\"");
    assert_eq!(json_quote("夜窗/"), "\"夜窗/\"");
}

#[test]
fn decimal_text_writes_numbers() {
    assert_eq!(decimal_text(0), "0");
    assert_eq!(decimal_text(7), "7");
    assert_eq!(decimal_text(5_000), "5000");
    assert_eq!(decimal_text(u64::MAX), "18446744073709551615");
}

#[test]
fn error_bodies_have_their_shapes() {
    assert_eq!(error_body("attachment not found"), "{\"error\":\"attachment not found\"}");
    assert_eq!(gateway_error_body("bad \"x\""), "{\"Error\":{\"message\":\"bad \\\"x\\\"\"}}");
    let push = push_error(403, "subscription belongs to another resident");
    assert_eq!(push.status, 403);
    assert_eq!(push.body, "{\"error\":\"subscription belongs to another resident\"}");
    let attachment = attachment_error(404, "attachment not found");
    assert_eq!(attachment.kind, BodyKind::Json);
    let denied = unauthorized("authorization bearer token required");
    assert_eq!(denied.status, 401);
    assert_eq!(denied.body, "{\"Error\":{\"message\":\"authorization bearer token required\"}}");
    assert_eq!(ok_json().body, "{\"ok\":true}");
    assert_eq!(read_failure("broken pipe").body, "{\"error\":\"broken pipe\"}");
}

#[test]
fn attachment_paths_and_uploads() {
    assert_eq!(attachment_id_from_path("/v1/shell/attachment/att-9").as_deref(), Some("att-9"));
    assert_eq!(attachment_id_from_path("/v1/shell/attachments/att-9"), None);
    assert_eq!(attachment_url("att-9"), "/v1/shell/attachment/att-9");
    assert_eq!(declared_mime(Some("image/png; charset=binary")).as_deref(), Some("image/png"));
    assert_eq!(declared_mime(Some("  image/webp ")).as_deref(), Some("image/webp"));
    assert_eq!(declared_mime(Some(" ; x")), None);
    assert_eq!(declared_mime(None), None);
    let too_large = attachment_too_large(8_388_608);
    assert_eq!(too_large.status, 413);
    assert_eq!(too_large.body, "{\"error\":\"attachment too large: max 8388608 bytes\"}");
    assert!(upload_precheck(10, UploadOutcome::Received(10)).is_none());
    let too_big = upload_precheck(10, UploadOutcome::Received(11)).expect("too big");
    assert_eq!(too_big.status, 413);
    assert_eq!(too_big.body, "{\"error\":\"attachment too large: max 10 bytes\"}");
    assert_eq!(upload_precheck(10, UploadOutcome::MissingToken).expect("no token").status, 401);
    let unreadable = upload_precheck(10, UploadOutcome::ReadFailed("reset".into())).expect("read");
    assert_eq!(unreadable.status, 400);
    assert_eq!(unreadable.body, "{\"error\":\"read attachment body failed: reset\"}");
}

#[test]
fn push_answers() {
    let owner = IdentityId("qa-a".into());
    assert!(unsubscribe_allowed(None, &owner));
    assert!(unsubscribe_allowed(Some(&IdentityId("qa-a".into())), &owner));
    assert!(!unsubscribe_allowed(Some(&IdentityId("qa-b".into())), &owner));
    assert_eq!(vapid_key_reply(None).status, 503);
    assert_eq!(vapid_key_reply(Some("BKey")).body, "{\"ok\":true,\"public_key\":\"BKey\"}");
    assert_eq!(push_reply(true, PushOutcome::Done).status, 201);
    assert_eq!(push_reply(false, PushOutcome::Done).status, 200);
    assert_eq!(push_reply(false, PushOutcome::Rejected("disk".into())).status, 500);
    assert_eq!(push_reply(true, PushOutcome::Rejected("bad".into())).status, 400);
    assert_eq!(push_reply(false, PushOutcome::NotOwner).status, 403);
    assert_eq!(push_reply(true, PushOutcome::InvalidSession).status, 401);
    assert_eq!(push_reply(true, PushOutcome::MissingToken).status, 401);
    assert_eq!(
        push_reply(true, PushOutcome::DecodeFailed).body,
        "{\"error\":\"endpoint and keys are required\"}"
    );
    assert_eq!(
        push_reply(false, PushOutcome::DecodeFailed).body,
        "{\"error\":\"endpoint is required\"}"
    );
    assert_eq!(
        push_reply(true, PushOutcome::ReadFailed("eof".into())).body,
        "{\"error\":\"read request failed: eof\"}"
    );
}

#[test]
fn command_replies_follow_each_step() {
    assert_eq!(decode_failure_message("create city", "eof"), "decode create city failed: eof");
    let read = command_reply("create city", true, CommandOutcome::ReadFailed("eof".into()));
    assert_eq!((read.reply.status, read.notify), (400, false));
    assert_eq!(read.reply.body, "{\"error\":\"eof\"}");
    let decode = command_reply("join city", true, CommandOutcome::DecodeFailed("missing field".into()));
    assert_eq!(decode.reply.body, "{\"Error\":{\"message\":\"decode join city failed: missing field\"}}");
    let rejected = command_reply("join city", true, CommandOutcome::Rejected("city not found".into()));
    assert_eq!((rejected.reply.status, rejected.notify), (400, false));
    let done = command_reply("join city", true, CommandOutcome::Done("{\"ok\":1}".into()));
    assert_eq!((done.reply.status, done.notify, done.reply.body.as_str()), (200, true, "{\"ok\":1}"));
    let quiet = command_reply("auth preflight", false, CommandOutcome::Done("{}".into()));
    assert!(!quiet.notify);
    let refused = command_reply("x", true, CommandOutcome::Refused(unauthorized("no")));
    assert_eq!((refused.reply.status, refused.notify), (401, false));
}

#[test]
fn device_replies_follow_each_step() {
    assert_eq!(device_reply(DeviceOutcome::ReadFailed).body, "{\"error\":\"read body failed\"}");
    assert_eq!(device_reply(DeviceOutcome::DecodeFailed("eof".into())).body, "{\"error\":\"decode: eof\"}");
    assert_eq!(device_reply(DeviceOutcome::Rejected("unknown device".into())).body, "{\"error\":\"unknown device\"}");
    assert_eq!(device_reply(DeviceOutcome::Done(None)).body, "{\"ok\":true}");
    assert_eq!(device_reply(DeviceOutcome::Done(Some("{\"address\":\"a\"}".into()))).status, 200);
    assert_eq!(device_reply(DeviceOutcome::ReadFailed).kind, BodyKind::Json);
    assert_eq!(device_reply(DeviceOutcome::Done(None)).kind, BodyKind::Json);
}

#[test]
fn reply_headers_follow_the_body_kind_and_route() {
    let events = reply_headers(BodyKind::EventStream, Route::GetShellEvents);
    assert_eq!(
        events,
        vec![
            ("Content-Type".to_string(), "text/event-stream; charset=utf-8".to_string()),
            ("Access-Control-Allow-Origin".to_string(), "*".to_string()),
            ("Cache-Control".to_string(), "no-cache".to_string()),
        ]
    );
    let health = reply_headers(BodyKind::Text, Route::Health);
    assert_eq!(health[0].1, "text/plain; charset=utf-8");
    assert_eq!(health.len(), 2);
    let preflight = reply_headers(BodyKind::Text, Route::Preflight);
    assert_eq!(preflight[2], ("Access-Control-Allow-Methods".to_string(), "GET, POST, OPTIONS".to_string()));
    assert_eq!(preflight[3], ("Access-Control-Allow-Headers".to_string(), "Content-Type".to_string()));
    assert_eq!(reply_headers(BodyKind::Json, Route::GetWorld)[0].1, "application/json");
}

#[test]
fn otp_delivery_failures_hide_details() {
    assert_eq!(
        email_otp_delivery_verdict(Some(Err("connect to 10.0.0.7 refused".into()))),
        Err("email otp delivery failed".to_string())
    );
    assert_eq!(email_otp_delivery_verdict(Some(Ok(()))), Ok(()));
    assert_eq!(email_otp_delivery_verdict(None), Ok(()));
}

#[test]
fn urls_are_composed() {
    assert_eq!(shell_gateway_base_url("127.0.0.1:8787"), "http://127.0.0.1:8787");
    assert_eq!(world_snapshot_url("http://mirror"), "http://mirror/v1/world-snapshot");
}
