//! What the download step asks for, and what its response decides.

use vstd::prelude::*;
use crate::error::RunError;
use crate::naming::{destination, destination_path};

verus! {

/// The address of the latest stable package for 64-bit Debian-based systems.
pub const DOWNLOAD_URL: &'static str = "https://update.code.visualstudio.com/latest/linux-deb-x64/stable";

/// How long, in seconds, establishing the connection may take.
pub const CONNECT_TIMEOUT_SECS: u64 = 30;

/// An HTTP status that counts as success.
pub open spec fn success_status(status: u16) -> bool {
    200 <= status <= 299
}

/// Whether `status` counts as success.
pub fn is_success_status(status: u16) -> (r: bool)
    ensures
        r == success_status(status),
{
    200 <= status && status <= 299
}

/// What a response decides: the error that ends the run, or the path that
/// the body is to be written to.
pub open spec fn response_outcome(
    status: u16,
    url_path: Seq<char>,
    temp_dir: Option<Seq<char>>,
) -> Result<Seq<char>, RunError> {
    if !success_status(status) {
        Err(RunError::HttpStatus { status })
    } else {
        match temp_dir {
            None => Err(RunError::PathEncoding),
            Some(dir) => Ok(destination(dir, url_path)),
        }
    }
}

/// The view of an optional string.
pub open spec fn opt_view(s: Option<String>) -> Option<Seq<char>> {
    match s {
        Some(v) => Some(v@),
        None => None,
    }
}

/// Decides on a response with `status` whose final URL has the path
/// `url_path`; `temp_dir` is the temporary directory, `None` where it has no
/// text form. A status other than success is refused before anything is
/// written.
pub fn on_response(status: u16, url_path: &str, temp_dir: &Option<String>) -> (r: Result<String, RunError>)
    ensures
        match (r, response_outcome(status, url_path@, opt_view(*temp_dir))) {
            (Ok(p), Ok(q)) => p@ == q,
            (Err(e), Err(f)) => e == f,
            _ => false,
        },
{
    if !is_success_status(status) {
        return Err(RunError::HttpStatus { status });
    }
    match temp_dir {
        None => Err(RunError::PathEncoding),
        Some(dir) => Ok(destination_path(dir.as_str(), url_path)),
    }
}

} // verus!
