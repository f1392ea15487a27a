//! The static-file route: joining the base directory with the requested
//! suffix, and turning the outcome of the file read into a response. The
//! read itself is I/O and happens outside the library; its outcome is
//! handed in as a plain value.

use vstd::prelude::*;
use vstd::string::StringExecFns;
use crate::response::{HttpResponse, STATUS_INTERNAL_SERVER_ERROR, STATUS_NOT_FOUND, STATUS_OK};

verus! {

/// How reading the requested file went: its text, or the failure class.
/// Any failure other than the file being absent (permissions, a
/// directory, bytes that are not UTF-8) is `OtherError`.
pub enum FileReadOutcome {
    Content(String),
    NotFound,
    OtherError,
}

/// The directory the static route serves from, with the trailing
/// separator already attached.
pub fn static_dir() -> (s: &'static str)
    ensures
        s@ == "./src/static/"@,
{
    "./src/static/"
}

/// The file that a request suffix names: the base directory with the
/// suffix appended verbatim. Nothing is sanitized away, so a suffix may
/// still climb out of the directory.
pub fn static_file_path(suffix: &str) -> (p: String)
    ensures
        p@ == "./src/static/"@ + suffix@,
{
    let mut p = String::from_str(static_dir());
    p.append(suffix);
    p
}

/// The response for a static request, given how the read went: the file's
/// text verbatim on success, a fixed page when the file is absent, and a
/// fixed page for every other failure.
pub fn static_page(outcome: FileReadOutcome) -> (r: HttpResponse)
    ensures
        match outcome {
            FileReadOutcome::Content(data) => r.status == STATUS_OK && r.body@ == data@,
            FileReadOutcome::NotFound => r.status == STATUS_NOT_FOUND && r.body@
                == "<h1>Not Found</h1>"@,
            FileReadOutcome::OtherError => r.status == STATUS_INTERNAL_SERVER_ERROR && r.body@
                == "<h1>INTERNAL_SERVER_ERROR</h1>"@,
        },
        r.wf(),
{
    match outcome {
        FileReadOutcome::Content(data) => HttpResponse { status: STATUS_OK, body: data },
        FileReadOutcome::NotFound => HttpResponse {
            status: STATUS_NOT_FOUND,
            body: String::from_str("<h1>Not Found</h1>"),
        },
        FileReadOutcome::OtherError => HttpResponse {
            status: STATUS_INTERNAL_SERVER_ERROR,
            body: String::from_str("<h1>INTERNAL_SERVER_ERROR</h1>"),
        },
    }
}

} // verus!
