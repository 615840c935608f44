//! How a request is run once it is routed: the admin gate in front of
//! handlers and access to the shared runtime.
use vstd::prelude::*;

use crate::responses::{gateway_error, gateway_error_json, BodyKind, Reply};

verus! {

/// Runs a read handler behind the admin gate: when the admin check produced a
/// refusal, that refusal is the answer and the handler does not run.
pub fn dispatch_admin_read<R, F: FnOnce() -> R>(admin_refusal: Option<R>, handler: F) -> (r: R)
    requires
        admin_refusal is None ==> handler.requires(()),
    ensures
        match admin_refusal {
            Some(refusal) => r == refusal,
            None => handler.ensures((), r),
        },
{
    match admin_refusal {
        Some(refusal) => refusal,
        None => handler(),
    }
}

/// Runs a write handler behind the admin gate, handing it the request.
pub fn dispatch_admin_write<Q, R, F: FnOnce(Q) -> R>(admin_refusal: Option<R>, request: Q, handler: F) -> (r: R)
    requires
        admin_refusal is None ==> handler.requires((request,)),
    ensures
        match admin_refusal {
            Some(refusal) => r == refusal,
            None => handler.ensures((request,), r),
        },
{
    match admin_refusal {
        Some(refusal) => refusal,
        None => handler(request),
    }
}

/// The message of the answer given when the runtime lock is poisoned.
pub open spec fn poisoned_lock_message() -> Seq<char> {
    "gateway runtime unavailable"@
}

/// Runs an action on the runtime behind its lock. On a healthy lock the
/// action runs on the guarded state and its result is handed back; on a lock
/// that a panicking holder poisoned the action does not run and the answer is
/// a JSON 500.
pub fn with_runtime<G, T, F: FnOnce(G) -> T>(lock: Result<G, G>, action: F) -> (r: Result<T, Reply>)
    requires
        lock matches Ok(guard) ==> action.requires((guard,)),
    ensures
        match lock {
            Ok(guard) => r matches Ok(v) && action.ensures((guard,), v),
            Err(_) => r matches Err(reply) && reply.status == 500 && reply.kind == BodyKind::Json
                && reply.body@ == gateway_error_json(poisoned_lock_message()),
        },
{
    match lock {
        Ok(guard) => Ok(action(guard)),
        Err(_) => Err(gateway_error(500, "gateway runtime unavailable")),
    }
}

} // verus!
