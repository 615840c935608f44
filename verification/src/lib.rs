//! Request parsing, routing and governance state for the Lobster Waku gateway.
use vstd::prelude::*;

pub mod text;
pub mod query;
pub mod order;
pub mod records;
pub mod governance;
pub mod routing;
pub mod dispatch;
pub mod json;
pub mod cli;
pub mod responses;
pub mod requests;
pub mod scene;
pub mod mailer;
pub mod outcomes;

verus! {

} // verus!
