//! Addresses that command-line clients use to name a user, an agent or a
//! room.
use vstd::prelude::*;

use crate::records::{ConversationId, IdentityId};
use crate::text::{chars_from, chars_of, has_prefix, starts_with, string_from_chars};

verus! {

/// Whom a command-line client speaks for or to.
#[derive(Debug, PartialEq, Eq)]
pub enum CliAddress {
    User(IdentityId),
    Agent(IdentityId),
    Room(ConversationId),
}

pub enum CliAddressView {
    User(Seq<char>),
    Agent(Seq<char>),
    Room(Seq<char>),
}

impl View for CliAddress {
    type V = CliAddressView;

    open spec fn view(&self) -> CliAddressView {
        match self {
            CliAddress::User(id) => CliAddressView::User(id@),
            CliAddress::Agent(id) => CliAddressView::Agent(id@),
            CliAddress::Room(id) => CliAddressView::Room(id@),
        }
    }
}

/// `user:<id>` names a user and `agent:<id>` an agent by the id after the
/// prefix; `room:<rest>` names the room whose id is the whole address; an
/// empty id or any other prefix is refused.
pub open spec fn cli_address_spec(raw: Seq<char>) -> Result<CliAddressView, Seq<char>> {
    if starts_with(raw, "user:"@) && raw.len() > 5 {
        Ok(CliAddressView::User(raw.skip(5)))
    } else if starts_with(raw, "agent:"@) && raw.len() > 6 {
        Ok(CliAddressView::Agent(raw.skip(6)))
    } else if starts_with(raw, "room:"@) && raw.len() > 5 {
        Ok(CliAddressView::Room(raw))
    } else {
        Err("unsupported cli address: "@ + raw)
    }
}

/// Reads a command-line address.
pub fn parse_cli_address(raw: &str) -> (r: Result<CliAddress, String>)
    ensures
        match r {
            Ok(address) => cli_address_spec(raw@) == Ok::<CliAddressView, Seq<char>>(address@),
            Err(message) => cli_address_spec(raw@) == Err::<CliAddressView, Seq<char>>(message@),
        },
{
    let chars = chars_of(raw);
    let user = chars_of("user:");
    let agent = chars_of("agent:");
    let room = chars_of("room:");
    proof {
        reveal_strlit("user:");
        reveal_strlit("agent:");
        reveal_strlit("room:");
    }
    if has_prefix(&chars, &user) && chars.len() > 5 {
        let id = chars_from(&chars, 5);
        Ok(CliAddress::User(IdentityId(string_from_chars(id.as_slice()))))
    } else if has_prefix(&chars, &agent) && chars.len() > 6 {
        let id = chars_from(&chars, 6);
        Ok(CliAddress::Agent(IdentityId(string_from_chars(id.as_slice()))))
    } else if has_prefix(&chars, &room) && chars.len() > 5 {
        Ok(CliAddress::Room(ConversationId(raw.to_owned())))
    } else {
        let mut message = "unsupported cli address: ".to_owned();
        message.append(raw);
        Err(message)
    }
}

/// The body of the answer to a command-line request without `for`.
pub fn cli_missing_for_body() -> (r: String)
    ensures
        r@ == "{\"message\":\"missing for\"}"@,
{
    "{\"message\":\"missing for\"}".to_owned()
}

} // verus!
