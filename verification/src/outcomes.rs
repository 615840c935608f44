//! How the write routes answer once each of their steps has run: reading the
//! body, decoding it, the credential checks, and the runtime's verdict.
use vstd::prelude::*;

use crate::json::{decimal_digits, json_quote, json_quoted};
use crate::responses::{
    error_json, gateway_error, gateway_error_json, push_error, raw_error_body, raw_error_json,
    BodyKind, Reply,
};

verus! {

/// What happened to a JSON command (a city, auth or governance write).
pub enum CommandOutcome {
    /// The request body could not be read.
    ReadFailed(String),
    /// The body was not the expected JSON.
    DecodeFailed(String),
    /// A credential check answered instead.
    Refused(Reply),
    /// The runtime refused the command.
    Rejected(String),
    /// The runtime carried it out; the result as JSON.
    Done(String),
}

/// The answer to a JSON command, and whether listeners are to be told that
/// the state changed.
pub struct CommandReply {
    pub reply: Reply,
    pub notify: bool,
}

/// `decode <what> failed: <error>`.
pub open spec fn decode_failure_text(what: Seq<char>, error: Seq<char>) -> Seq<char> {
    "decode "@ + what + " failed: "@ + error
}

pub fn decode_failure_message(what: &str, error: &str) -> (r: String)
    ensures
        r@ == decode_failure_text(what@, error@),
{
    let mut message = "decode ".to_owned();
    message.append(what);
    message.append(" failed: ");
    message.append(error);
    message
}

/// The answer to a JSON command: a body that cannot be read is a 400 naming
/// the error; one that does not decode is a 400 gateway error naming what
/// was being decoded; a refusal is passed on; the runtime's rejection is a
/// 400 gateway error with its message; success is a 200 with the result,
/// and only success (when `notifies`) tells listeners.
pub fn command_reply(what: &str, notifies: bool, outcome: CommandOutcome) -> (r: CommandReply)
    ensures
        match outcome {
            CommandOutcome::ReadFailed(e) => r.reply.status == 400 && r.reply.body@
                == raw_error_json(e@) && !r.notify,
            CommandOutcome::DecodeFailed(e) => r.reply.status == 400 && r.reply.body@
                == gateway_error_json(decode_failure_text(what@, e@)) && !r.notify,
            CommandOutcome::Refused(reply) => r.reply == reply && !r.notify,
            CommandOutcome::Rejected(message) => r.reply.status == 400 && r.reply.body@
                == gateway_error_json(message@) && !r.notify,
            CommandOutcome::Done(json) => r.reply.status == 200 && r.reply.body@ == json@
                && r.notify == notifies,
        },
        match outcome {
            CommandOutcome::Refused(_) => true,
            _ => r.reply.kind == BodyKind::Json,
        },
{
    match outcome {
        CommandOutcome::ReadFailed(e) => CommandReply {
            reply: Reply { status: 400, kind: BodyKind::Json, body: raw_error_body(e.as_str()) },
            notify: false,
        },
        CommandOutcome::DecodeFailed(e) => {
            let message = decode_failure_message(what, e.as_str());
            CommandReply { reply: gateway_error(400, message.as_str()), notify: false }
        },
        CommandOutcome::Refused(reply) => CommandReply { reply, notify: false },
        CommandOutcome::Rejected(message) => CommandReply {
            reply: gateway_error(400, message.as_str()),
            notify: false,
        },
        CommandOutcome::Done(json) => CommandReply {
            reply: Reply { status: 200, kind: BodyKind::Json, body: json },
            notify: notifies,
        },
    }
}

/// What happened to an admin device request.
pub enum DeviceOutcome {
    ReadFailed,
    DecodeFailed(String),
    Refused(Reply),
    Rejected(String),
    /// Done; the added device as JSON, or nothing for the other device
    /// commands.
    Done(Option<String>),
}

/// The answer to an admin device request: unreadable bodies and decode
/// errors are 400s, the runtime's rejection is a 400 naming it, success is a
/// 200 with the added device or `{"ok":true}`.
pub fn device_reply(outcome: DeviceOutcome) -> (r: Reply)
    ensures
        match outcome {
            DeviceOutcome::ReadFailed => r.status == 400 && r.kind == BodyKind::Json && r.body@
                == "{\"error\":\"read body failed\"}"@,
            DeviceOutcome::DecodeFailed(e) => r.status == 400 && r.kind == BodyKind::Json
                && r.body@ == raw_error_json("decode: "@ + e@),
            DeviceOutcome::Refused(reply) => r == reply,
            DeviceOutcome::Rejected(message) => r.status == 400 && r.kind == BodyKind::Json
                && r.body@ == raw_error_json(message@),
            DeviceOutcome::Done(Some(json)) => r.status == 200 && r.kind == BodyKind::Json
                && r.body@ == json@,
            DeviceOutcome::Done(None) => r.status == 200 && r.kind == BodyKind::Json && r.body@
                == "{\"ok\":true}"@,
        },
{
    match outcome {
        DeviceOutcome::ReadFailed => Reply {
            status: 400,
            kind: BodyKind::Json,
            body: "{\"error\":\"read body failed\"}".to_owned(),
        },
        DeviceOutcome::DecodeFailed(e) => {
            let mut text = "decode: ".to_owned();
            text.append(e.as_str());
            Reply { status: 400, kind: BodyKind::Json, body: raw_error_body(text.as_str()) }
        },
        DeviceOutcome::Refused(reply) => reply,
        DeviceOutcome::Rejected(message) => Reply {
            status: 400,
            kind: BodyKind::Json,
            body: raw_error_body(message.as_str()),
        },
        DeviceOutcome::Done(Some(json)) => Reply { status: 200, kind: BodyKind::Json, body: json },
        DeviceOutcome::Done(None) => Reply {
            status: 200,
            kind: BodyKind::Json,
            body: "{\"ok\":true}".to_owned(),
        },
    }
}

/// The answer to a request for the push public key.
pub fn vapid_key_reply(public_key: Option<&str>) -> (r: Reply)
    ensures
        match public_key {
            Some(k) => r.status == 200 && r.body@ == "{\"ok\":true,\"public_key\":"@
                + json_quoted(k@) + "}"@,
            None => r.status == 503 && r.body@ == error_json("push is not available"@),
        },
        r.kind == BodyKind::Json,
{
    match public_key {
        Some(k) => {
            let mut body = "{\"ok\":true,\"public_key\":".to_owned();
            let quoted = json_quote(k);
            body.append(quoted.as_str());
            body.append("}");
            Reply { status: 200, kind: BodyKind::Json, body }
        },
        None => push_error(503, "push is not available"),
    }
}

/// What happened to a push subscription request, step by step.
pub enum PushOutcome {
    MissingToken,
    ReadFailed(String),
    DecodeFailed,
    InvalidSession,
    /// Unsubscribing from a subscription that another resident owns.
    NotOwner,
    Rejected(String),
    Done,
}

/// The answer to a push subscription (`subscribe`) or removal request.
pub fn push_reply(subscribe: bool, outcome: PushOutcome) -> (r: Reply)
    ensures
        r.kind == BodyKind::Json,
        match outcome {
            PushOutcome::MissingToken => r.status == 401 && r.body@ == error_json(
                "authorization bearer token required"@,
            ),
            PushOutcome::ReadFailed(e) => r.status == 400 && r.body@ == error_json(
                "read request failed: "@ + e@,
            ),
            PushOutcome::DecodeFailed => r.status == 400 && r.body@ == error_json(
                if subscribe {
                    "endpoint and keys are required"@
                } else {
                    "endpoint is required"@
                },
            ),
            PushOutcome::InvalidSession => r.status == 401 && r.body@ == error_json(
                "invalid or expired session"@,
            ),
            PushOutcome::NotOwner => r.status == 403 && r.body@ == error_json(
                "subscription belongs to another resident"@,
            ),
            PushOutcome::Rejected(m) => r.status == (if subscribe {
                400u16
            } else {
                500u16
            }) && r.body@ == error_json(m@),
            PushOutcome::Done => r.status == (if subscribe {
                201u16
            } else {
                200u16
            }) && r.body@ == "{\"ok\":true}"@,
        },
{
    match outcome {
        PushOutcome::MissingToken => push_error(401, "authorization bearer token required"),
        PushOutcome::ReadFailed(e) => {
            let mut message = "read request failed: ".to_owned();
            message.append(e.as_str());
            push_error(400, message.as_str())
        },
        PushOutcome::DecodeFailed => if subscribe {
            push_error(400, "endpoint and keys are required")
        } else {
            push_error(400, "endpoint is required")
        },
        PushOutcome::InvalidSession => push_error(401, "invalid or expired session"),
        PushOutcome::NotOwner => push_error(403, "subscription belongs to another resident"),
        PushOutcome::Rejected(m) => push_error(
            if subscribe {
                400
            } else {
                500
            },
            m.as_str(),
        ),
        PushOutcome::Done => Reply {
            status: if subscribe {
                201
            } else {
                200
            },
            kind: BodyKind::Json,
            body: "{\"ok\":true}".to_owned(),
        },
    }
}

/// What happened to an attachment upload, step by step.
pub enum UploadOutcome {
    MissingToken,
    ReadFailed(String),
    /// The body held this many bytes (at most one more than allowed is read).
    Received(u64),
}

/// The first answer of an attachment upload, if the upload stops before the
/// runtime stores it: no token is a 401, an unreadable body a 400, a body
/// over `max_bytes` a 413.
pub fn upload_precheck(max_bytes: u64, outcome: UploadOutcome) -> (r: Option<Reply>)
    ensures
        match outcome {
            UploadOutcome::MissingToken => r matches Some(reply) && reply.status == 401
                && reply.kind == BodyKind::Json
                && reply.body@ == error_json("authorization bearer token required"@),
            UploadOutcome::ReadFailed(e) => r matches Some(reply) && reply.status == 400
                && reply.kind == BodyKind::Json
                && reply.body@ == error_json("read attachment body failed: "@ + e@),
            UploadOutcome::Received(n) => if n > max_bytes {
                r matches Some(reply) && reply.status == 413 && reply.kind == BodyKind::Json
                    && reply.body@ == error_json(
                    "attachment too large: max "@ + decimal_digits(max_bytes as nat) + " bytes"@,
                )
            } else {
                r is None
            },
        },
{
    match outcome {
        UploadOutcome::MissingToken => Some(
            crate::responses::attachment_error(401, "authorization bearer token required"),
        ),
        UploadOutcome::ReadFailed(e) => {
            let mut message = "read attachment body failed: ".to_owned();
            message.append(e.as_str());
            Some(crate::responses::attachment_error(400, message.as_str()))
        },
        UploadOutcome::Received(n) => if n > max_bytes {
            Some(crate::responses::attachment_too_large(max_bytes))
        } else {
            None
        },
    }
}

/// What a resident is told when a one-time code could not be delivered: a
/// fixed message, whatever the delivery error was (its details stay in the
/// server log).
pub fn email_otp_delivery_verdict(delivery: Option<Result<(), String>>) -> (r: Result<(), String>)
    ensures
        match delivery {
            Some(Err(_)) => r matches Err(m) && m@ == "email otp delivery failed"@,
            _ => r is Ok,
        },
{
    match delivery {
        Some(Err(_)) => Err("email otp delivery failed".to_owned()),
        _ => Ok(()),
    }
}

} // verus!
