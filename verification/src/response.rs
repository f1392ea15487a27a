//! The HTTP response shape shared by the handlers: a status code and a
//! text body, together with the status codes the server ever sends.

use vstd::prelude::*;

verus! {

/// Status for a successful read or the greeting route.
pub const STATUS_OK: u16 = 200;

/// Status for a freshly created user.
pub const STATUS_CREATED: u16 = 201;

/// Status for a request body that could not be decoded.
pub const STATUS_BAD_REQUEST: u16 = 400;

/// Status for a file that is not there.
pub const STATUS_NOT_FOUND: u16 = 404;

/// Status for any other failure while reading a file.
pub const STATUS_INTERNAL_SERVER_ERROR: u16 = 500;

/// A response as the handlers produce it: a status code and a text body.
/// The surrounding binary attaches the content type.
pub struct HttpResponse {
    pub status: u16,
    pub body: String,
}

impl HttpResponse {
    /// The statuses this server can answer with.
    pub open spec fn wf(self) -> bool {
        self.status == STATUS_OK || self.status == STATUS_CREATED
            || self.status == STATUS_BAD_REQUEST || self.status == STATUS_NOT_FOUND
            || self.status == STATUS_INTERNAL_SERVER_ERROR
    }
}

/// The greeting route: no input, no failure mode, always the same body.
pub fn root() -> (r: HttpResponse)
    ensures
        r.status == STATUS_OK,
        r.body@ == "Hello, World!"@,
        r.wf(),
{
    HttpResponse { status: STATUS_OK, body: String::from_str("Hello, World!") }
}

} // verus!
