use vstd::prelude::*;
use crate::plan::{Launch, launch_plan, plan_of};
use crate::settings::Settings;

verus! {

/// The exit status when the catalog cannot be built from the storage path.
pub const FATAL_STARTUP_EXIT: i32 = 1;

/// The exit status after a shutdown whose cleanup completed.
pub const CLEAN_EXIT: i32 = 0;

/// The exit status when the cleanup chain itself hit an internal fault.
pub const CLEANUP_FAULT_EXIT: i32 = 1;

/// What to do with the storage path before the catalog is built.
#[derive(PartialEq, Eq, Structural, Clone, Copy, Debug)]
pub enum StorageAction {
    /// The path exists: leave it, and what it holds, as it is.
    UseExisting,
    /// The path is missing: create it as a directory.
    CreateDirectory,
}

/// Creates the storage directory only when it does not exist yet.
pub fn storage_action(path_exists: bool) -> (r: StorageAction)
    ensures
        r == (if path_exists { StorageAction::UseExisting } else { StorageAction::CreateDirectory }),
{
    if path_exists {
        StorageAction::UseExisting
    } else {
        StorageAction::CreateDirectory
    }
}

/// How startup goes on once the catalog was, or was not, built.
pub enum StartupDecision {
    /// Exit at once with this status: no service is started and nothing is cleaned up.
    Exit(i32),
    /// Start these services in this order, then wait for shutdown.
    Serve(Vec<Launch>),
}

/// A failed catalog is fatal and ends the process with the fatal status before any cleanup;
/// a built one starts the services that the configuration asks for.
pub fn decide_startup(settings: &Settings, catalog_built: bool) -> (r: StartupDecision)
    ensures
        !catalog_built ==> r == StartupDecision::Exit(FATAL_STARTUP_EXIT),
        catalog_built ==> (match r {
            StartupDecision::Serve(p) => p@ == plan_of(*settings),
            StartupDecision::Exit(_) => false,
        }),
{
    if catalog_built {
        StartupDecision::Serve(launch_plan(settings))
    } else {
        StartupDecision::Exit(FATAL_STARTUP_EXIT)
    }
}

/// The process's status once the runtime has halted.
pub fn exit_status(cleanup_completed: bool) -> (r: i32)
    ensures
        r == (if cleanup_completed { CLEAN_EXIT } else { CLEANUP_FAULT_EXIT }),
        cleanup_completed <==> r == 0,
{
    if cleanup_completed {
        CLEAN_EXIT
    } else {
        CLEANUP_FAULT_EXIT
    }
}

} // verus!
