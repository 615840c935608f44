//! What the read routes take from a request's query before they consult the
//! runtime, the answers they give when something is missing, and the pieces
//! of the shell event stream.
use vstd::prelude::*;

use crate::cli::{parse_cli_address, cli_address_spec, cli_missing_for_body, CliAddress, CliAddressView};
use crate::json::{decimal_digits, decimal_text, json_quote, json_quoted};
use crate::query::{
    last_value, limit_spec, nonblank, present_untrimmed, query_limit, trimmed_param,
    untrimmed_param, QueryParams,
};
use crate::records::ConversationId;
use crate::responses::{gateway_error, gateway_error_json, BodyKind, Reply};
use crate::text::chars_of;

verus! {

/// The conversation and page size of an admin message audit.
pub fn admin_messages_query(params: &QueryParams) -> (r: Result<(ConversationId, usize), Reply>)
    ensures
        match r {
            Ok((id, limit)) => present_untrimmed(last_value(params@, "conversation_id"@)) == Some(
                id@,
            ) && limit == limit_spec(last_value(params@, "limit"@), 50, 200),
            Err(reply) => present_untrimmed(last_value(params@, "conversation_id"@)) is None
                && reply.status == 400 && reply.kind == BodyKind::Json && reply.body@
                == "{\"error\":\"conversation_id query parameter required\"}"@,
        },
{
    match untrimmed_param(params, "conversation_id") {
        Some(id) => Ok((ConversationId(id), query_limit(params, 50, 200))),
        None => Err(
            Reply {
                status: 400,
                kind: BodyKind::Json,
                body: "{\"error\":\"conversation_id query parameter required\"}".to_owned(),
            },
        ),
    }
}

/// The answer when a conversation has no audit.
pub fn empty_message_audit() -> (r: Reply)
    ensures
        r.status == 200,
        r.kind == BodyKind::Json,
        r.body@ == "{\"messages\":[],\"total_count\":0,\"returned_count\":0}"@,
{
    Reply {
        status: 200,
        kind: BodyKind::Json,
        body: "{\"messages\":[],\"total_count\":0,\"returned_count\":0}".to_owned(),
    }
}

/// The message whose moderation status is asked for.
pub fn moderation_message_id(params: &QueryParams) -> (r: Result<String, Reply>)
    ensures
        match r {
            Ok(id) => present_untrimmed(last_value(params@, "message_id"@)) == Some(id@),
            Err(reply) => present_untrimmed(last_value(params@, "message_id"@)) is None
                && reply.status == 400 && reply.kind == BodyKind::Json && reply.body@
                == "{\"error\":\"message_id query parameter required\"}"@,
        },
{
    match untrimmed_param(params, "message_id") {
        Some(id) => Ok(id),
        None => Err(
            Reply {
                status: 400,
                kind: BodyKind::Json,
                body: "{\"error\":\"message_id query parameter required\"}".to_owned(),
            },
        ),
    }
}

/// The resident an export or a message search is for (trimmed).
pub fn required_resident_id(params: &QueryParams) -> (r: Result<String, Reply>)
    ensures
        match r {
            Ok(id) => nonblank(last_value(params@, "resident_id"@)) == Some(id@),
            Err(reply) => nonblank(last_value(params@, "resident_id"@)) is None && reply.status
                == 400 && reply.kind == BodyKind::Json && reply.body@ == gateway_error_json(
                "resident_id query parameter required"@,
            ),
        },
{
    match trimmed_param(params, "resident_id") {
        Some(id) => Ok(id),
        None => Err(gateway_error(400, "resident_id query parameter required")),
    }
}

/// The text a search looks for (trimmed).
pub fn required_search_text(params: &QueryParams) -> (r: Result<String, Reply>)
    ensures
        match r {
            Ok(q) => nonblank(last_value(params@, "q"@)) == Some(q@),
            Err(reply) => nonblank(last_value(params@, "q"@)) is None && reply.status == 400
                && reply.kind == BodyKind::Json && reply.body@ == gateway_error_json(
                "q query parameter required"@,
            ),
        },
{
    match trimmed_param(params, "q") {
        Some(q) => Ok(q),
        None => Err(gateway_error(400, "q query parameter required")),
    }
}

/// The raw `for` address of a command-line request.
pub fn cli_for_param(params: &QueryParams) -> (r: Result<String, Reply>)
    ensures
        match r {
            Ok(raw) => last_value(params@, "for"@) == Some(raw@),
            Err(reply) => last_value(params@, "for"@) is None && reply.status == 400 && reply.kind
                == BodyKind::Json && reply.body@ == "{\"message\":\"missing for\"}"@,
        },
{
    match params.get("for") {
        Some(raw) => Ok(raw.clone()),
        None => Err(Reply { status: 400, kind: BodyKind::Json, body: cli_missing_for_body() }),
    }
}

/// The parts of a command-line search: the raw `for` address, the trimmed
/// search text, the trimmed room (when one is named) and the page size (50
/// by default, at most 200). A missing `for` is answered first, then a blank
/// search text; the sender's credentials are checked between the two by the
/// route, against the returned address.
pub fn cli_search_request(params: &QueryParams) -> (r: Result<(String, String, Option<String>, usize), Reply>)
    ensures
        match r {
            Ok((raw_for, q, room, limit)) => {
                &&& last_value(params@, "for"@) == Some(raw_for@)
                &&& nonblank(last_value(params@, "q"@)) == Some(q@)
                &&& nonblank(last_value(params@, "room_id"@)) == match room {
                    Some(v) => Some(v@),
                    None => None,
                }
                &&& limit == limit_spec(last_value(params@, "limit"@), 50, 200)
            },
            Err(reply) => if last_value(params@, "for"@) is None {
                reply.status == 400 && reply.kind == BodyKind::Json && reply.body@
                    == "{\"message\":\"missing for\"}"@
            } else {
                nonblank(last_value(params@, "q"@)) is None && reply.status == 400 && reply.kind
                    == BodyKind::Json && reply.body@ == gateway_error_json(
                    "q query parameter required"@,
                )
            },
        },
{
    let raw_for = match cli_for_param(params) {
        Ok(raw) => raw,
        Err(reply) => return Err(reply),
    };
    let q = match required_search_text(params) {
        Ok(q) => q,
        Err(reply) => return Err(reply),
    };
    let room = trimmed_param(params, "room_id");
    let limit = query_limit(params, 50, 200);
    Ok((raw_for, q, room, limit))
}

/// The parts of a message search: the trimmed resident, the trimmed search
/// text, the trimmed room (when one is named) and the page size (50 by
/// default, at most 200). A blank resident is answered first, then a blank
/// search text; the resident's session is checked between the two by the
/// route, against the returned resident.
pub fn message_search_request(params: &QueryParams) -> (r: Result<(String, String, Option<String>, usize), Reply>)
    ensures
        match r {
            Ok((resident, q, room, limit)) => {
                &&& nonblank(last_value(params@, "resident_id"@)) == Some(resident@)
                &&& nonblank(last_value(params@, "q"@)) == Some(q@)
                &&& nonblank(last_value(params@, "room_id"@)) == match room {
                    Some(v) => Some(v@),
                    None => None,
                }
                &&& limit == limit_spec(last_value(params@, "limit"@), 50, 200)
            },
            Err(reply) => if nonblank(last_value(params@, "resident_id"@)) is None {
                reply.status == 400 && reply.kind == BodyKind::Json && reply.body@
                    == gateway_error_json("resident_id query parameter required"@)
            } else {
                nonblank(last_value(params@, "q"@)) is None && reply.status == 400 && reply.kind
                    == BodyKind::Json && reply.body@ == gateway_error_json(
                    "q query parameter required"@,
                )
            },
        },
{
    let resident = match required_resident_id(params) {
        Ok(id) => id,
        Err(reply) => return Err(reply),
    };
    let q = match required_search_text(params) {
        Ok(q) => q,
        Err(reply) => return Err(reply),
    };
    let room = trimmed_param(params, "room_id");
    let limit = query_limit(params, 50, 200);
    Ok((resident, q, room, limit))
}

/// The address a command-line request speaks for; an address that does not
/// read is answered with the reason.
pub fn cli_viewer(raw: &str) -> (r: Result<CliAddress, Reply>)
    ensures
        match r {
            Ok(address) => cli_address_spec(raw@) == Ok::<CliAddressView, Seq<char>>(address@),
            Err(reply) => cli_address_spec(raw@) is Err && reply.status == 400 && reply.kind
                == BodyKind::Json && reply.body@ == gateway_error_json(
                cli_address_spec(raw@)->Err_0,
            ),
        },
{
    match parse_cli_address(raw) {
        Ok(address) => Ok(address),
        Err(message) => Err(gateway_error(400, message.as_str())),
    }
}

/// Whether the shell state differs from the version the client has: the
/// `after` parameter, trimmed; a client that names no version (or a blank
/// one) always gets the state.
pub fn sse_has_new_state(params: &QueryParams, state_version: &str) -> (r: bool)
    ensures
        r == match nonblank(last_value(params@, "after"@)) {
            Some(v) => v != state_version@,
            None => true,
        },
{
    match trimmed_param(params, "after") {
        Some(v) => {
            let current = state_version.to_owned();
            !(v == current)
        },
        None => true,
    }
}

/// An event stream answers once there is news, when it was not asked to
/// wait, or when its waiting time is over.
pub fn sse_should_answer(has_new_state: bool, wait_ms: u64, deadline_passed: bool) -> (r: bool)
    ensures
        r == (has_new_state || wait_ms == 0 || deadline_passed),
{
    has_new_state || wait_ms == 0 || deadline_passed
}

/// The heartbeat event's data: the time and the resident, if any.
pub open spec fn heartbeat_json(now_ms: u64, resident: Option<Seq<char>>) -> Seq<char> {
    "{\"now_ms\":"@ + decimal_digits(now_ms as nat) + ",\"resident_id\":"@ + match resident {
        Some(r) => json_quoted(r),
        None => "null"@,
    } + "}"@
}

pub fn sse_heartbeat(now_ms: u64, resident: Option<&str>) -> (r: String)
    ensures
        r@ == heartbeat_json(
            now_ms,
            match resident {
                Some(v) => Some(v@),
                None => None,
            },
        ),
{
    let mut body = "{\"now_ms\":".to_owned();
    let digits = decimal_text(now_ms);
    body.append(digits.as_str());
    body.append(",\"resident_id\":");
    match resident {
        Some(v) => {
            let quoted = json_quote(v);
            body.append(quoted.as_str());
        },
        None => {
            body.append("null");
        },
    }
    body.append("}");
    body
}

/// The event stream body: a retry hint, the shell state, then the heartbeat.
pub open spec fn sse_text(data: Seq<char>, heartbeat: Seq<char>) -> Seq<char> {
    "retry: 4000\nevent: shell-state\ndata: "@ + data + "\n\nevent: shell-heartbeat\ndata: "@
        + heartbeat + "\n\n"@
}

pub fn sse_body(data: &str, heartbeat: &str) -> (r: String)
    ensures
        r@ == sse_text(data@, heartbeat@),
{
    let mut body = "retry: 4000\nevent: shell-state\ndata: ".to_owned();
    body.append(data);
    body.append("\n\nevent: shell-heartbeat\ndata: ");
    body.append(heartbeat);
    body.append("\n\n");
    body
}

/// The event stream's answer: 200 with the shell state and the heartbeat.
pub fn sse_reply(data: &str, heartbeat: &str) -> (r: Reply)
    ensures
        r.status == 200,
        r.kind == BodyKind::EventStream,
        r.body@ == sse_text(data@, heartbeat@),
{
    Reply { status: 200, kind: BodyKind::EventStream, body: sse_body(data, heartbeat) }
}

/// The lowercase form of a text, as `str::to_lowercase` gives it.
pub uninterp spec fn lowercase(s: Seq<char>) -> Seq<char>;

/// `str::to_lowercase`.
///
/// Trusted: the result depends on the text alone (Unicode's lowercase
/// mapping); what that mapping is is left to the name `lowercase`.
#[verifier::external_body]
fn to_lowercase(s: &str) -> (r: String)
    ensures
        r@ == lowercase(s@),
{
    s.to_lowercase()
}

/// Whether `needle` occurs in `haystack`.
pub open spec fn contains_text(haystack: Seq<char>, needle: Seq<char>) -> bool {
    exists|i: int|
        0 <= i <= haystack.len() - needle.len() && #[trigger] haystack.subrange(
            i,
            i + needle.len(),
        ) == needle
}

fn occurs_at(h: &Vec<char>, n: &Vec<char>, i: usize) -> (r: bool)
    requires
        i + n@.len() <= h@.len(),
    ensures
        r == (h@.subrange(i as int, i + n@.len()) == n@),
{
    let hl = h.len();
    let mut k: usize = 0;
    while k < n.len()
        invariant
            hl == h@.len(),
            i + n@.len() <= h@.len(),
            k <= n@.len(),
            forall|j: int| 0 <= j < k ==> h@[i + j] == n@[j],
        decreases n@.len() - k,
    {
        if h[i + k] != n[k] {
            assert(h@.subrange(i as int, i + n@.len())[k as int] != n@[k as int]);
            return false;
        }
        k = k + 1;
    }
    assert(h@.subrange(i as int, i + n@.len()) =~= n@);
    true
}

pub fn text_contains(haystack: &str, needle: &str) -> (r: bool)
    ensures
        r == contains_text(haystack@, needle@),
{
    let h = chars_of(haystack);
    let n = chars_of(needle);
    if n.len() > h.len() {
        return false;
    }
    if n.len() == 0 {
        assert(haystack@.subrange(0int, 0int + needle@.len()) =~= needle@);
        return true;
    }
    let last = h.len() - n.len();
    let mut i: usize = 0;
    while i <= last
        invariant
            0 < n@.len() <= h@.len(),
            last == h@.len() - n@.len(),
            last < usize::MAX,
            h@ == haystack@,
            n@ == needle@,
            i <= last + 1,
            forall|j: int| 0 <= j < i ==> #[trigger] h@.subrange(j, j + n@.len()) != n@,
        decreases last + 1 - i,
    {
        if occurs_at(&h, &n, i) {
            return true;
        }
        i = i + 1;
    }
    false
}

/// One entry of the resident directory, as far as searching reads it.
#[derive(Debug)]
pub struct ResidentDirectoryEntry {
    pub resident_id: String,
    pub active_cities: Vec<String>,
    pub roles: Vec<String>,
}

pub open spec fn any_contains(texts: Seq<String>, search: Seq<char>) -> bool {
    exists|i: int| 0 <= i < texts.len() && contains_text(lowercase(#[trigger] texts[i]@), search)
}

/// An entry matches when the search text occurs in the lowercase form of its
/// resident id, of one of its active cities or of one of its roles.
pub open spec fn entry_matches(e: ResidentDirectoryEntry, search: Seq<char>) -> bool {
    contains_text(lowercase(e.resident_id@), search) || any_contains(e.active_cities@, search)
        || any_contains(e.roles@, search)
}

fn any_text_contains(texts: &Vec<String>, search: &str) -> (r: bool)
    ensures
        r == any_contains(texts@, search@),
{
    let mut i: usize = 0;
    while i < texts.len()
        invariant
            i <= texts@.len(),
            forall|k: int| 0 <= k < i ==> !contains_text(lowercase(#[trigger] texts@[k]@), search@),
        decreases texts@.len() - i,
    {
        let lower = to_lowercase(texts[i].as_str());
        if text_contains(lower.as_str(), search) {
            return true;
        }
        i = i + 1;
    }
    false
}

pub fn resident_matches(entry: &ResidentDirectoryEntry, search: &str) -> (r: bool)
    ensures
        r == entry_matches(*entry, search@),
{
    let lower = to_lowercase(entry.resident_id.as_str());
    text_contains(lower.as_str(), search) || any_text_contains(&entry.active_cities, search)
        || any_text_contains(&entry.roles, search)
}

/// The entries that match, in order.
pub open spec fn matching_entries(entries: Seq<ResidentDirectoryEntry>, search: Seq<char>) -> Seq<
    ResidentDirectoryEntry,
>
    decreases entries.len(),
{
    if entries.len() == 0 {
        seq![]
    } else {
        let rest = matching_entries(entries.drop_last(), search);
        if entry_matches(entries.last(), search) {
            rest.push(entries.last())
        } else {
            rest
        }
    }
}

/// The lowercase search text of a resident directory request, if any.
pub fn resident_search(params: &QueryParams) -> (r: Option<String>)
    ensures
        match r {
            Some(s) => nonblank(last_value(params@, "q"@)) is Some && s@ == lowercase(
                nonblank(last_value(params@, "q"@))->Some_0,
            ),
            None => nonblank(last_value(params@, "q"@)) is None,
        },
{
    match trimmed_param(params, "q") {
        Some(q) => Some(to_lowercase(q.as_str())),
        None => None,
    }
}

/// The resident directory narrowed to the entries that match the search, in
/// order; without a search every entry stays.
pub fn filter_residents(entries: Vec<ResidentDirectoryEntry>, search: Option<String>) -> (r: Vec<
    ResidentDirectoryEntry,
>)
    ensures
        r@ == match search {
            Some(s) => matching_entries(entries@, s@),
            None => entries@,
        },
{
    match search {
        None => entries,
        Some(s) => {
            let ghost all = entries@;
            let mut input = entries;
            let mut kept: Vec<ResidentDirectoryEntry> = Vec::new();
            let mut done: usize = 0;
            let total = input.len();
            while input.len() > 0
                invariant
                    done + input@.len() == all.len(),
                    all.len() == total,
                    input@ == all.skip(done as int),
                    kept@ == matching_entries(all.take(done as int), s@),
                decreases input@.len(),
            {
                let ghost before = input@;
                let entry = input.remove(0);
                assert(entry == all[done as int]);
                assert(all.take(done + 1).drop_last() =~= all.take(done as int));
                if resident_matches(&entry, s.as_str()) {
                    kept.push(entry);
                }
                done = done + 1;
                assert(input@ =~= all.skip(done as int));
            }
            assert(all.take(done as int) =~= all);
            kept
        },
    }
}

/// Whether `search` occurs in the lowercase form of one of `texts`.
pub open spec fn some_lowercase_contains(texts: Seq<String>, search: Seq<char>) -> bool {
    exists|j: int| 0 <= j < texts.len() && #[trigger] contains_text(lowercase(texts[j]@), search)
}

/// The directory search keeps exactly the entries it should, in order: an
/// entry whose resident id, one of whose active cities or one of whose
/// roles contains the search text once lowercased is kept; every kept entry
/// is one of the entries and matches in one of these three ways; and an
/// entry that matches in none of them is left out.
pub proof fn lemma_directory_search_keeps_matches(
    entries: Seq<ResidentDirectoryEntry>,
    search: Seq<char>,
)
    ensures
        forall|i: int|
            0 <= i < entries.len() && (contains_text(lowercase(entries[i].resident_id@), search)
                || some_lowercase_contains(entries[i].active_cities@, search)
                || some_lowercase_contains(entries[i].roles@, search)) ==> #[trigger] matching_entries(
                entries,
                search,
            ).contains(entries[i]),
        forall|k: int|
            0 <= k < matching_entries(entries, search).len() ==> {
                let e = #[trigger] matching_entries(entries, search)[k];
                &&& entries.contains(e)
                &&& contains_text(lowercase(e.resident_id@), search) || some_lowercase_contains(
                    e.active_cities@,
                    search,
                ) || some_lowercase_contains(e.roles@, search)
            },
        matching_entries(entries, search).len() <= entries.len(),
    decreases entries.len(),
{
    if entries.len() > 0 {
        let init = entries.drop_last();
        let last = entries.last();
        lemma_directory_search_keeps_matches(init, search);
        let rest = matching_entries(init, search);
        let r = matching_entries(entries, search);
        assert(entry_matches(last, search) == (contains_text(lowercase(last.resident_id@), search)
            || some_lowercase_contains(last.active_cities@, search)
            || some_lowercase_contains(last.roles@, search))) by {
            if any_contains(last.active_cities@, search) {
                let j = choose|j: int| 0 <= j < last.active_cities@.len() && contains_text(
                    lowercase(last.active_cities@[j]@),
                    search,
                );
                assert(contains_text(lowercase(last.active_cities@[j]@), search));
            }
            if some_lowercase_contains(last.active_cities@, search) {
                let j = choose|j: int| 0 <= j < last.active_cities@.len() && contains_text(
                    lowercase(last.active_cities@[j]@),
                    search,
                );
                assert(contains_text(lowercase(#[trigger] last.active_cities@[j]@), search));
            }
            if any_contains(last.roles@, search) {
                let j = choose|j: int| 0 <= j < last.roles@.len() && contains_text(
                    lowercase(last.roles@[j]@),
                    search,
                );
                assert(contains_text(lowercase(last.roles@[j]@), search));
            }
            if some_lowercase_contains(last.roles@, search) {
                let j = choose|j: int| 0 <= j < last.roles@.len() && contains_text(
                    lowercase(last.roles@[j]@),
                    search,
                );
                assert(contains_text(lowercase(#[trigger] last.roles@[j]@), search));
            }
        }
        assert forall|i: int|
            0 <= i < entries.len() && (contains_text(lowercase(entries[i].resident_id@), search)
                || some_lowercase_contains(entries[i].active_cities@, search)
                || some_lowercase_contains(entries[i].roles@, search)) implies #[trigger] r.contains(
            entries[i],
        ) by {
            if i < entries.len() - 1 {
                assert(entries[i] == init[i]);
                assert(rest.contains(init[i]));
                let w = choose|w: int| 0 <= w < rest.len() && rest[w] == init[i];
                assert(r[w] == rest[w]);
            } else {
                assert(r[r.len() - 1] == last);
            }
        }
        assert forall|k: int| 0 <= k < r.len() implies {
            let e = #[trigger] r[k];
            &&& entries.contains(e)
            &&& contains_text(lowercase(e.resident_id@), search) || some_lowercase_contains(
                e.active_cities@,
                search,
            ) || some_lowercase_contains(e.roles@, search)
        } by {
            if k < rest.len() {
                assert(r[k] == rest[k]);
                let e = rest[k];
                assert(init.contains(e));
                let w = choose|w: int| 0 <= w < init.len() && init[w] == e;
                assert(entries[w] == e);
            } else {
                assert(r[k] == last);
                assert(entries[entries.len() - 1] == last);
            }
        }
    }
}

} // verus!
