use vstd::prelude::*;
use crate::report::PositionReport;

verus! {

/// Status of a reply that carries what was asked for.
pub const STATUS_OK: u16 = 200;

/// Status of a reply to a request that the store could not serve.
pub const STATUS_INTERNAL_ERROR: u16 = 500;

/// What a reply carries.
pub enum Body {
    /// Plain text.
    Text(String),
    /// One report, or `None` (rendered as `null`) when there is none.
    Report(Option<PositionReport>),
    /// A list of reports.
    Reports(Vec<PositionReport>),
}

/// An answer to one request: a status code and a body.
pub struct Reply {
    pub status: u16,
    pub body: Body,
}

/// The reply of [`internal_error`].
pub open spec fn internal_error_spec(description: String) -> Reply {
    Reply { status: STATUS_INTERNAL_ERROR, body: Body::Text(description) }
}

/// Reply to a request that failed in the store: status 500, the failure's
/// description as plain text.
pub fn internal_error(description: String) -> (r: Reply)
    ensures
        r == internal_error_spec(description),
{
    Reply { status: STATUS_INTERNAL_ERROR, body: Body::Text(description) }
}

/// Reply of the liveness probe: status 200 and the text `world!`. It depends
/// on nothing, the store included.
pub fn hello() -> (r: Reply)
    ensures
        r.status == STATUS_OK,
        r.body matches Body::Text(t) && t@ == "world!"@,
{
    let text = "world!".to_owned();
    Reply { status: STATUS_OK, body: Body::Text(text) }
}

/// Reply to the lookup of one vessel, from the store's answer: the report
/// found, unchanged, or `None` when the vessel has no report, both with
/// status 200; a failed lookup gives an internal error.
pub fn ship_reply(lookup: Result<Option<PositionReport>, String>) -> (r: Reply)
    ensures
        lookup matches Ok(found) ==> r == (Reply { status: STATUS_OK, body: Body::Report(found) }),
        lookup matches Err(description) ==> r == internal_error_spec(description),
{
    match lookup {
        Ok(found) => Reply { status: STATUS_OK, body: Body::Report(found) },
        Err(description) => internal_error(description),
    }
}

} // verus!
