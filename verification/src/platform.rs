use vstd::prelude::*;
use crate::hosting::{Context, Platform};

verus! {

/// Whether the hostfxr library counts as loaded before the runtime is
/// initialised: on Unix nothing is loaded up front, so always; on Windows
/// when the path query returned status zero and all three exports resolved.
pub open spec fn spec_load_hostfxr_library(platform: Platform, path_status: i32, context: Context) -> bool {
    match platform {
        Platform::Unix => true,
        Platform::Windows => path_status == 0 && context.spec_is_loaded(),
    }
}

/// The outcome of loading the hostfxr library up front on `platform`, from
/// the status of the hostfxr path query and the exports that loading the
/// library resolved: always success on Unix, where the library is loaded
/// later; on Windows success when the query succeeded and every export was
/// found.
pub fn load_hostfxr_library(platform: Platform, path_status: i32, context: Context) -> (r: bool)
    ensures
        r == spec_load_hostfxr_library(platform, path_status, context),
        platform == Platform::Unix ==> r,
        platform == Platform::Windows ==> (r <==> path_status == 0
            && context.initialize_for_runtime_config_func_ptr != 0
            && context.get_runtime_delegate_func_ptr != 0 && context.close_func_ptr != 0),
{
    match platform {
        Platform::Unix => crate::linux::load_hostfxr_library(),
        Platform::Windows => path_status == 0 && context.is_loaded(),
    }
}


/// On Windows the up-front load succeeds only when the path query returned
/// status zero and every one of the three exports (initialisation, delegate
/// request, close) was resolved; a missing export or a failed query makes it
/// fail. On Unix nothing is loaded up front and it always succeeds.
pub proof fn law_windows_load_needs_query_and_every_export(path_status: i32, context: Context)
    ensures
        spec_load_hostfxr_library(Platform::Windows, path_status, context) <==> (path_status == 0
            && context.initialize_for_runtime_config_func_ptr != 0
            && context.get_runtime_delegate_func_ptr != 0 && context.close_func_ptr != 0),
        path_status != 0 ==> !spec_load_hostfxr_library(Platform::Windows, path_status, context),
        context.get_runtime_delegate_func_ptr == 0 ==> !spec_load_hostfxr_library(
            Platform::Windows,
            path_status,
            context,
        ),
        spec_load_hostfxr_library(Platform::Unix, path_status, context),
{
}

} // verus!
