//! The command line of the manager.
use vstd::prelude::*;

verus! {

/// Options taken from the command line.
#[derive(Debug, Clone, Copy, PartialEq, Eq, Structural)]
pub struct Args {
    /// Start minimized to the system tray.
    pub minimized: bool,
}

/// A command line that asks for something other than running.
#[derive(Debug, PartialEq, Eq)]
pub enum CliExit {
    /// `--version` or `-v`: print the version and exit successfully.
    Version,
    /// `--help` or `-h`: print the usage and exit successfully.
    Help,
    /// An argument that is not understood: report it and fail.
    UnknownArgument(String),
}

pub open spec fn is_minimized_flag(a: Seq<char>) -> bool {
    a == "--minimized"@
}

pub open spec fn is_version_flag(a: Seq<char>) -> bool {
    a == "--version"@ || a == "-v"@
}

pub open spec fn is_help_flag(a: Seq<char>) -> bool {
    a == "--help"@ || a == "-h"@
}

/// `k` is the first argument that is not `--minimized`.
pub open spec fn first_other(args: Seq<String>, k: int) -> bool {
    &&& 0 <= k < args.len()
    &&& !is_minimized_flag(args[k]@)
    &&& forall|j: int| 0 <= j < k ==> is_minimized_flag(#[trigger] args[j]@)
}

fn same_text(a: &String, b: &str) -> (r: bool)
    ensures
        r == (a@ == b@),
{
    *a == String::from_str(b)
}

impl Args {
    /// Reads the arguments that follow the program name, in order. The first
    /// one that is not `--minimized` decides: a version or help flag asks for
    /// that output, anything else is an unknown argument.
    pub fn parse(args: &Vec<String>) -> (r: Result<Args, CliExit>)
        ensures
            (forall|j: int| 0 <= j < args@.len() ==> is_minimized_flag(#[trigger] args@[j]@))
                ==> r == Ok::<Args, CliExit>(Args { minimized: args@.len() > 0 }),
            forall|k: int|
                first_other(args@, k) ==> {
                    let a = #[trigger] args@[k]@;
                    if is_version_flag(a) {
                        r == Err::<Args, CliExit>(CliExit::Version)
                    } else if is_help_flag(a) {
                        r == Err::<Args, CliExit>(CliExit::Help)
                    } else {
                        r matches Err(CliExit::UnknownArgument(u)) && u@ == a
                    }
                },
    {
        let mut minimized = false;
        let mut i: usize = 0;
        while i < args.len()
            invariant
                i <= args@.len(),
                minimized == (i > 0),
                forall|j: int| 0 <= j < i ==> is_minimized_flag(#[trigger] args@[j]@),
            decreases args@.len() - i,
        {
            let a = &args[i];
            proof {
                reveal_strlit("--minimized");
                reveal_strlit("--version");
                reveal_strlit("--help");
                reveal_strlit("-v");
                reveal_strlit("-h");
                assert("--minimized"@.len() == 11);
                assert("--version"@.len() == 9 && "--help"@.len() == 6);
                assert("-v"@.len() == 2 && "-h"@.len() == 2);
            }
            if same_text(a, "--version") || same_text(a, "-v") {
                proof {
                    assert(first_other(args@, i as int));
                }
                return Err(CliExit::Version);
            } else if same_text(a, "--help") || same_text(a, "-h") {
                proof {
                    assert(first_other(args@, i as int));
                }
                return Err(CliExit::Help);
            } else if same_text(a, "--minimized") {
                minimized = true;
            } else {
                proof {
                    assert(first_other(args@, i as int));
                }
                return Err(CliExit::UnknownArgument(a.clone()));
            }
            i = i + 1;
        }
        Ok(Args { minimized })
    }
}

} // verus!
