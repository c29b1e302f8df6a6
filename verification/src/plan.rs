//! The run's decisions, separated from the file-system work they steer.
//! The surrounding program reports what it sees (whether the output
//! directory exists, which modes were requested) and performs exactly the
//! actions the plan calls for.

use vstd::prelude::*;
use crate::error::{InitError, InitErrorV};

verus! {

/// What a run is to do to the file system.
#[derive(Debug, PartialEq, Eq)]
pub struct RunPlan {
    /// Remove the existing output directory tree first.
    pub remove_existing: bool,
    /// Write the manifest and create the cache link; dry-run leaves this
    /// off, so discovery and validation still happen but nothing is
    /// produced.
    pub write_outputs: bool,
}

/// Decides a run's file-system actions.  An existing output directory is
/// an error unless clean mode is on; clean mode removes it instead.
pub fn plan_run(output_dir_exists: bool, clean: bool, dry_run: bool) -> (r: Result<
    RunPlan,
    InitError,
>)
    ensures
        match r {
            Ok(p) => {
                &&& clean || !output_dir_exists
                &&& p.remove_existing == clean
                &&& p.write_outputs == !dry_run
            },
            Err(e) => {
                &&& !clean && output_dir_exists
                &&& e@ == InitErrorV::Precondition
            },
        },
{
    if !clean && output_dir_exists {
        Err(InitError::Precondition)
    } else {
        Ok(RunPlan { remove_existing: clean, write_outputs: !dry_run })
    }
}

} // verus!
