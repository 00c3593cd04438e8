//! The startup decision: from the resolved working directory to the one
//! window the process opens, or to termination when resolution failed.

use vstd::prelude::*;
use crate::config::WindowConfig;
use crate::config::is_fixed_config;
use crate::path::DirPath;
use crate::path::cache_directory;
use crate::path::cache_segment;

verus! {

/// Everything the surrounding program needs to open the window: where the
/// webview keeps its cached data, and the window's configuration.
pub struct StartupPlan {
    /// The directory handed to the framework for per-window cached data.
    pub data_directory: DirPath,
    /// The window's fixed configuration.
    pub window: WindowConfig,
}

/// Decides startup from the outcome of working-directory resolution. When
/// resolution failed there is no plan, so no window is ever created; when it
/// yielded a directory, the plan points the cached data at its "cache"
/// subdirectory and carries the fixed window configuration.
pub fn plan_startup(cwd: Option<DirPath>) -> (r: Option<StartupPlan>)
    ensures
        cwd is None ==> r is None,
        cwd matches Some(d) ==> (r matches Some(p)
            && p.data_directory@ == d@.push(cache_segment())
            && is_fixed_config(p.window)),
{
    match cwd {
        None => None,
        Some(d) => Some(StartupPlan {
            data_directory: cache_directory(d),
            window: WindowConfig::fixed(),
        }),
    }
}

} // verus!
