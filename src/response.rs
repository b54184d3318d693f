//! The reply the service sends for one request.

use vstd::prelude::*;

verus! {

/// An HTTP status code and a text body.
#[derive(Debug)]
pub struct Response {
    pub status: u16,
    pub body: String,
}

pub const STATUS_OK: u16 = 200;

pub const STATUS_NOT_FOUND: u16 = 404;

impl Response {
    /// A 200 reply carrying `body`.
    pub fn ok(body: String) -> (r: Response)
        ensures
            r.status == STATUS_OK,
            r.body@ == body@,
    {
        Response { status: STATUS_OK, body }
    }

    /// A 404 reply with an empty body.
    pub fn not_found() -> (r: Response)
        ensures
            r.status == STATUS_NOT_FOUND,
            r.body@ == Seq::<char>::empty(),
    {
        Response { status: STATUS_NOT_FOUND, body: String::new() }
    }
}

} // verus!
