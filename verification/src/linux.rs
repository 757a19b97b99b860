use vstd::prelude::*;

verus! {

/// On Unix the hostfxr library is loaded later, from the path that the
/// hosting protocol finds; there is nothing to load up front, so this
/// always succeeds.
pub fn load_hostfxr_library() -> (r: bool)
    ensures
        r,
{
    true
}

} // verus!
