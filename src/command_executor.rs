//! What forwarding a command to a manager's executable decides.
use vstd::prelude::*;
use crate::package_detector::{manager_name, PackageManager};

verus! {

/// The executable of a manager, found on the search path.
pub fn manager_to_bin(m: PackageManager) -> (r: &'static str)
    ensures
        r@ == manager_name(m),
{
    match m {
        PackageManager::Npm => "npm",
        PackageManager::Yarn => "yarn",
        PackageManager::Pnpm => "pnpm",
    }
}

/// The exit code reported for a child that ended without one of its own
/// (for instance on a signal).
pub open spec fn fallback_exit_code() -> i32 {
    -1i32
}

/// The outcome of a forwarded command from its exit status: success, or the
/// failure with the child's exit code, `-1` where it has none.
pub fn command_outcome(success: bool, code: Option<i32>) -> (r: Result<(), i32>)
    ensures
        success <==> r is Ok,
        !success ==> r == Err::<(), i32>(
            match code {
                Some(c) => c,
                None => fallback_exit_code(),
            },
        ),
{
    if success {
        Ok(())
    } else {
        match code {
            Some(c) => Err(c),
            None => Err(-1),
        }
    }
}

} // verus!
