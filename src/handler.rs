//! The catch-all handler: every request, whatever its method or path, gets
//! the same empty success reply and one log record.
use vstd::prelude::*;
use crate::outside::{header_map_debug, render_headers};
use crate::record::{opt_view, record_from_parts, record_lines, LogRecord};

verus! {

/// The status of every reply: `200 OK`.
pub const OK_STATUS: u16 = 200;

/// What the handler reads of one request.
pub struct RequestSnapshot {
    pub headers: axum::http::HeaderMap,
    pub query: Option<String>,
    pub body: Vec<u8>,
}

/// The reply sent back: a status code and a body.
pub struct Reply {
    pub status: u16,
    pub body: String,
}

/// The lines that the record of `request` holds.
pub open spec fn request_record(request: RequestSnapshot) -> Seq<Seq<char>> {
    record_lines(header_map_debug(request.headers), opt_view(request.query), request.body@)
}

/// The reply to any request: `200` with an empty body.
pub fn fixed_reply() -> (r: Reply)
    ensures
        r.status == OK_STATUS,
        r.body@ == Seq::<char>::empty(),
{
    Reply { status: OK_STATUS, body: String::new() }
}

/// Handles one request: renders its record and answers it.
pub fn handle(request: &RequestSnapshot) -> (r: (LogRecord, Reply))
    ensures
        r.0@ == request_record(*request),
        r.1.status == OK_STATUS,
        r.1.body@ == Seq::<char>::empty(),
{
    let headers_text = render_headers(&request.headers);
    let record = record_from_parts(headers_text.as_str(), &request.query, &request.body);
    (record, fixed_reply())
}

} // verus!
