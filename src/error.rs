//! Why a run stopped.

use vstd::prelude::*;

verus! {

/// The failure that ends a run. Every failure is fatal: nothing is retried.
#[derive(Clone, Copy, Debug, PartialEq, Eq, Structural)]
pub enum RunError {
    /// The request could not be made or the body could not be read.
    Transport,
    /// The server answered with a status outside `200..=299`.
    HttpStatus { status: u16 },
    /// The destination file could not be created or written.
    File,
    /// The destination path has no text form to pass to the installer.
    PathEncoding,
    /// The installer ran and did not exit with status zero.
    Installer { code: Option<i32> },
    /// The installer could not be started.
    Spawn,
}

} // verus!
