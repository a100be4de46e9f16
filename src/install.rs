//! The command that installs the downloaded package, and how its exit is read.

use vstd::prelude::*;

verus! {

/// The program that raises privileges for the package manager.
pub const INSTALLER_PROGRAM: &'static str = "sudo";

/// The package manager, run by [`INSTALLER_PROGRAM`].
pub const PACKAGE_MANAGER: &'static str = "dpkg";

/// The package manager's flag that installs a package file.
pub const INSTALL_FLAG: &'static str = "-i";

/// A program and its arguments.
#[derive(Debug)]
pub struct Command {
    pub program: String,
    pub args: Vec<String>,
}

/// `program` and `args` install the package file at `path`: the privileged
/// package manager with its install flag, and the path unchanged as the last
/// argument.
pub open spec fn installed_by(program: String, args: Vec<String>, path: Seq<char>) -> bool {
    &&& program@ == INSTALLER_PROGRAM@
    &&& args@.len() == 3
    &&& args@[0]@ == PACKAGE_MANAGER@
    &&& args@[1]@ == INSTALL_FLAG@
    &&& args@[2]@ == path
}

/// The command that installs the package file at `path`.
pub fn install_command(path: &str) -> (r: Command)
    ensures
        installed_by(r.program, r.args, path@),
{
    let mut args: Vec<String> = Vec::new();
    args.push(String::from_str(PACKAGE_MANAGER));
    args.push(String::from_str(INSTALL_FLAG));
    args.push(String::from_str(path));
    Command { program: String::from_str(INSTALLER_PROGRAM), args }
}

/// An installer that ended with `code` (`None`: it was ended by a signal)
/// succeeded exactly when it exited with status zero.
pub open spec fn exit_ok(code: Option<i32>) -> bool {
    code == Some(0i32)
}

/// Whether an installer that ended with `code` succeeded. What it printed
/// plays no part.
pub fn installer_succeeded(code: Option<i32>) -> (r: bool)
    ensures
        r == exit_ok(code),
{
    match code {
        Some(c) => c == 0,
        None => false,
    }
}

} // verus!
