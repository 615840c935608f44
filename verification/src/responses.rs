//! The answers the gateway gives: status codes, error bodies, the fixed
//! answers of the router, and the pieces of attachment, push and event-stream
//! answers that do not depend on the runtime.
use vstd::prelude::*;

use crate::json::{decimal_digits, decimal_text, json_quote, json_quoted};
use crate::records::IdentityId;
use crate::routing::Route;
use crate::text::{
    chars_from, chars_of, has_prefix, starts_with, string_from_chars, trim_chars, trim_spec,
};

verus! {

/// How the body of an answer is to be read.
#[derive(Clone, Copy, Debug, PartialEq, Eq, Structural)]
pub enum BodyKind {
    Text,
    Json,
    /// A server-sent event stream.
    EventStream,
}

/// An answer: status code, body kind and body.
#[derive(Debug)]
pub struct Reply {
    pub status: u16,
    pub kind: BodyKind,
    pub body: String,
}

/// `{"error":<message as a JSON string>}`.
pub open spec fn error_json(message: Seq<char>) -> Seq<char> {
    "{\"error\":"@ + json_quoted(message) + "}"@
}

/// `{"Error":{"message":<message as a JSON string>}}`, the gateway's error
/// response.
pub open spec fn gateway_error_json(message: Seq<char>) -> Seq<char> {
    "{\"Error\":{\"message\":"@ + json_quoted(message) + "}}"@
}

pub fn error_body(message: &str) -> (r: String)
    ensures
        r@ == error_json(message@),
{
    let mut body = "{\"error\":".to_owned();
    let quoted = json_quote(message);
    body.append(quoted.as_str());
    body.append("}");
    body
}

pub fn gateway_error_body(message: &str) -> (r: String)
    ensures
        r@ == gateway_error_json(message@),
{
    let mut body = "{\"Error\":{\"message\":".to_owned();
    let quoted = json_quote(message);
    body.append(quoted.as_str());
    body.append("}}");
    body
}

/// A JSON error answer of the push routes.
pub fn push_error(status: u16, message: &str) -> (r: Reply)
    ensures
        r.status == status,
        r.kind == BodyKind::Json,
        r.body@ == error_json(message@),
{
    Reply { status, kind: BodyKind::Json, body: error_body(message) }
}

/// A JSON error answer of the attachment routes.
pub fn attachment_error(status: u16, message: &str) -> (r: Reply)
    ensures
        r.status == status,
        r.kind == BodyKind::Json,
        r.body@ == error_json(message@),
{
    Reply { status, kind: BodyKind::Json, body: error_body(message) }
}

/// A gateway error answered with `status`.
pub fn gateway_error(status: u16, message: &str) -> (r: Reply)
    ensures
        r.status == status,
        r.kind == BodyKind::Json,
        r.body@ == gateway_error_json(message@),
{
    Reply { status, kind: BodyKind::Json, body: gateway_error_body(message) }
}

/// The answer to a request without valid credentials.
pub fn unauthorized(message: &str) -> (r: Reply)
    ensures
        r.status == 401,
        r.kind == BodyKind::Json,
        r.body@ == gateway_error_json(message@),
{
    gateway_error(401, message)
}

/// A plain success.
pub fn ok_json() -> (r: Reply)
    ensures
        r.status == 200,
        r.kind == BodyKind::Json,
        r.body@ == "{\"ok\":true}"@,
{
    Reply { status: 200, kind: BodyKind::Json, body: "{\"ok\":true}".to_owned() }
}

/// `{"error":"<text>"}` with the text put in as it is, as the body-reading
/// and device routes write it.
pub open spec fn raw_error_json(text: Seq<char>) -> Seq<char> {
    "{\"error\":\""@ + text + "\"}"@
}

pub fn raw_error_body(text: &str) -> (r: String)
    ensures
        r@ == raw_error_json(text@),
{
    let mut body = "{\"error\":\"".to_owned();
    body.append(text);
    body.append("\"}");
    body
}

/// The answer to a request whose body could not be read.
pub fn read_failure(error_text: &str) -> (r: Reply)
    ensures
        r.status == 400,
        r.kind == BodyKind::Json,
        r.body@ == raw_error_json(error_text@),
{
    Reply { status: 400, kind: BodyKind::Json, body: raw_error_body(error_text) }
}

/// The answer to a device request whose body could not be decoded.
pub fn device_decode_failure(error_text: &str) -> (r: Reply)
    ensures
        r.status == 400,
        r.kind == BodyKind::Json,
        r.body@ == raw_error_json("decode: "@ + error_text@),
{
    let mut text = "decode: ".to_owned();
    text.append(error_text);
    Reply { status: 400, kind: BodyKind::Json, body: raw_error_body(text.as_str()) }
}

/// The answer of a route that does not need the runtime, if the route is one.
pub open spec fn fixed_reply_spec(route: Route) -> Option<(u16, Seq<char>)> {
    match route {
        Route::Preflight => Some((204, ""@)),
        Route::Health => Some((200, "ok"@)),
        Route::NotFound => Some((404, "not found"@)),
        _ => None,
    }
}

/// CORS preflights, health checks and unknown routes are answered with text
/// at once.
pub fn fixed_reply(route: Route) -> (r: Option<Reply>)
    ensures
        match r {
            Some(reply) => fixed_reply_spec(route) == Some((reply.status, reply.body@))
                && reply.kind == BodyKind::Text,
            None => fixed_reply_spec(route) is None,
        },
{
    match route {
        Route::Preflight => Some(Reply { status: 204, kind: BodyKind::Text, body: "".to_owned() }),
        Route::Health => Some(Reply { status: 200, kind: BodyKind::Text, body: "ok".to_owned() }),
        Route::NotFound => Some(
            Reply { status: 404, kind: BodyKind::Text, body: "not found".to_owned() },
        ),
        _ => None,
    }
}

/// The id of the attachment that a download path names.
pub fn attachment_id_from_path(path: &str) -> (r: Option<String>)
    ensures
        match r {
            Some(id) => starts_with(path@, "/v1/shell/attachment/"@) && id@ == path@.skip(
                "/v1/shell/attachment/"@.len() as int,
            ),
            None => !starts_with(path@, "/v1/shell/attachment/"@),
        },
{
    let chars = chars_of(path);
    let prefix = chars_of("/v1/shell/attachment/");
    if has_prefix(&chars, &prefix) {
        let id = chars_from(&chars, prefix.len());
        Some(string_from_chars(id.as_slice()))
    } else {
        None
    }
}

/// Where an uploaded attachment can be fetched.
pub fn attachment_url(attachment_id: &str) -> (r: String)
    ensures
        r@ == "/v1/shell/attachment/"@ + attachment_id@,
{
    let mut url = "/v1/shell/attachment/".to_owned();
    url.append(attachment_id);
    url
}

/// The first `;`-separated part of a `Content-Type` value, trimmed.
pub open spec fn mime_of(value: Seq<char>) -> Seq<char> {
    let k = first_char_index(value, ';');
    trim_spec(value.take(k as int))
}

pub open spec fn first_char_index(s: Seq<char>, c: char) -> nat
    decreases s.len(),
{
    if s.len() == 0 || s[0] == c {
        0
    } else {
        1 + first_char_index(s.drop_first(), c)
    }
}

proof fn lemma_first_char_index(s: Seq<char>, c: char, k: int)
    requires
        0 <= k <= s.len(),
        forall|j: int| 0 <= j < k ==> s[j] != c,
        k < s.len() ==> s[k] == c,
    ensures
        first_char_index(s, c) == k,
    decreases k,
{
    if k > 0 {
        let t = s.drop_first();
        assert forall|j: int| 0 <= j < k - 1 implies t[j] != c by {
            assert(t[j] == s[j + 1]);
        }
        lemma_first_char_index(t, c, k - 1);
    }
}

/// The media type an upload declares, when its `Content-Type` names one.
pub fn declared_mime(content_type: Option<&str>) -> (r: Option<String>)
    ensures
        match content_type {
            Some(v) => if mime_of(v@).len() > 0 {
                r matches Some(m) && m@ == mime_of(v@)
            } else {
                r is None
            },
            None => r is None,
        },
{
    match content_type {
        Some(value) => {
            let chars = chars_of(value);
            let mut k: usize = 0;
            while k < chars.len() && chars[k] != ';'
                invariant
                    k <= chars@.len(),
                    forall|j: int| 0 <= j < k ==> chars@[j] != ';',
                decreases chars@.len() - k,
            {
                k = k + 1;
            }
            proof {
                lemma_first_char_index(chars@, ';', k as int);
            }
            let mut head: Vec<char> = Vec::new();
            let mut i: usize = 0;
            while i < k
                invariant
                    k <= chars@.len(),
                    i <= k,
                    head@ == chars@.take(i as int),
                decreases k - i,
            {
                head.push(chars[i]);
                i = i + 1;
                assert(head@ =~= chars@.take(i as int));
            }
            let trimmed = trim_chars(head.as_slice());
            if trimmed.len() > 0 {
                Some(string_from_chars(trimmed.as_slice()))
            } else {
                None
            }
        },
        None => None,
    }
}

/// The answer to an upload larger than `max_bytes`.
pub fn attachment_too_large(max_bytes: u64) -> (r: Reply)
    ensures
        r.status == 413,
        r.kind == BodyKind::Json,
        r.body@ == error_json("attachment too large: max "@ + decimal_digits(max_bytes as nat) + " bytes"@),
{
    let mut message = "attachment too large: max ".to_owned();
    let digits = decimal_text(max_bytes);
    message.append(digits.as_str());
    message.append(" bytes");
    attachment_error(413, message.as_str())
}

/// A subscription may be removed by its owner, and an unknown one by anyone.
pub fn unsubscribe_allowed(owner: Option<&IdentityId>, resident: &IdentityId) -> (r: bool)
    ensures
        r == match owner {
            Some(o) => o@ == resident@,
            None => true,
        },
{
    match owner {
        Some(o) => o.0 == resident.0,
        None => true,
    }
}

/// The address the mobile web shell is told to use.
pub fn shell_gateway_base_url(listen_addr: &str) -> (r: String)
    ensures
        r@ == "http://"@ + listen_addr@,
{
    let mut url = "http://".to_owned();
    url.append(listen_addr);
    url
}

/// Where a mirror publishes its world snapshot.
pub fn world_snapshot_url(base_url: &str) -> (r: String)
    ensures
        r@ == base_url@ + "/v1/world-snapshot"@,
{
    let mut url = base_url.to_owned();
    url.append("/v1/world-snapshot");
    url
}

/// The media type that answers of a body kind are sent with.
pub open spec fn content_type_spec(kind: BodyKind) -> Seq<char> {
    match kind {
        BodyKind::Text => "text/plain; charset=utf-8"@,
        BodyKind::Json => "application/json"@,
        BodyKind::EventStream => "text/event-stream; charset=utf-8"@,
    }
}

/// The headers of an answer: its content type and the open CORS origin;
/// an event stream is not to be cached, and a CORS preflight names the
/// methods and headers it allows.
pub open spec fn reply_headers_spec(kind: BodyKind, route: Route) -> Seq<(Seq<char>, Seq<char>)> {
    seq![("Content-Type"@, content_type_spec(kind)), ("Access-Control-Allow-Origin"@, "*"@)] + (
    if kind == BodyKind::EventStream {
        seq![("Cache-Control"@, "no-cache"@)]
    } else {
        seq![]
    }) + (if route == Route::Preflight {
        seq![
            ("Access-Control-Allow-Methods"@, "GET, POST, OPTIONS"@),
            ("Access-Control-Allow-Headers"@, "Content-Type"@),
        ]
    } else {
        seq![]
    })
}

pub open spec fn header_views(h: Seq<(String, String)>) -> Seq<(Seq<char>, Seq<char>)> {
    h.map_values(|p: (String, String)| (p.0@, p.1@))
}

/// The headers to send with an answer of body kind `kind` on route `route`.
pub fn reply_headers(kind: BodyKind, route: Route) -> (r: Vec<(String, String)>)
    ensures
        header_views(r@) == reply_headers_spec(kind, route),
{
    let content_type = match kind {
        BodyKind::Text => "text/plain; charset=utf-8".to_owned(),
        BodyKind::Json => "application/json".to_owned(),
        BodyKind::EventStream => "text/event-stream; charset=utf-8".to_owned(),
    };
    let mut headers: Vec<(String, String)> = Vec::new();
    headers.push(("Content-Type".to_owned(), content_type));
    headers.push(("Access-Control-Allow-Origin".to_owned(), "*".to_owned()));
    let ghost base = seq![("Content-Type"@, content_type_spec(kind)), ("Access-Control-Allow-Origin"@, "*"@)];
    assert(header_views(headers@) =~= base);
    let ghost cache: Seq<(Seq<char>, Seq<char>)> = if kind == BodyKind::EventStream {
        seq![("Cache-Control"@, "no-cache"@)]
    } else {
        seq![]
    };
    if kind == BodyKind::EventStream {
        headers.push(("Cache-Control".to_owned(), "no-cache".to_owned()));
    }
    assert(header_views(headers@) =~= base + cache);
    let ghost mid = header_views(headers@);
    if route == Route::Preflight {
        headers.push(("Access-Control-Allow-Methods".to_owned(), "GET, POST, OPTIONS".to_owned()));
        headers.push(("Access-Control-Allow-Headers".to_owned(), "Content-Type".to_owned()));
        assert(header_views(headers@) =~= mid + seq![
            ("Access-Control-Allow-Methods"@, "GET, POST, OPTIONS"@),
            ("Access-Control-Allow-Headers"@, "Content-Type"@),
        ]);
    } else {
        assert(header_views(headers@) =~= mid + seq![]);
    }
    headers
}

} // verus!
