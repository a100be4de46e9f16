//! Fetch the latest editor package and hand it to the system installer.
//!
//! The library holds every decision of a run: which file name and path the
//! download gets, which HTTP statuses count as success, which command installs
//! the package, and the order of the steps with their failure handling. The
//! network, the file system and the subprocess are driven from outside through
//! the events and actions of [`pipeline::run`].

pub mod error;
pub mod naming;
pub mod download;
pub mod install;
pub mod pipeline;
