use vstd::prelude::*;

verus! {

/// The callback that managed code registered to hear of changes in the
/// watched plugin directory, by its address; zero when none is registered.
#[derive(Clone, Copy, Debug)]
pub struct FileWatch {
    pub file_changed_func: usize,
}

impl FileWatch {
    /// The callback a file change reaches: the registered one, or none.
    pub open spec fn registered_callback(self) -> Option<usize> {
        if self.file_changed_func == 0 {
            None
        } else {
            Some(self.file_changed_func)
        }
    }

    /// A watch with no callback registered.
    pub fn new() -> (w: FileWatch)
        ensures
            w.file_changed_func == 0,
            w.registered_callback() is None,
    {
        FileWatch { file_changed_func: 0 }
    }

    /// Registers `func` as the callback, replacing any earlier one; zero
    /// unregisters.
    pub fn set(&mut self, func: usize)
        ensures
            final(self).file_changed_func == func,
    {
        self.file_changed_func = func;
    }

    /// The callback to invoke for a file change.
    pub fn callback_on_change(&self) -> (r: Option<usize>)
        ensures
            r == self.registered_callback(),
    {
        if self.file_changed_func == 0 {
            None
        } else {
            Some(self.file_changed_func)
        }
    }
}

/// After registering `f` and then `g`, a file change reaches `g`, whatever
/// was registered before; registering zero leaves no callback.
pub proof fn law_change_reaches_last_registered(w: FileWatch, f: usize, g: usize)
    ensures
        ({
            let w1 = FileWatch { file_changed_func: f, ..w };
            let w2 = FileWatch { file_changed_func: g, ..w1 };
            &&& g != 0 ==> w2.registered_callback() == Some(g)
            &&& g == 0 ==> w2.registered_callback() is None
        }),
{
}

} // verus!
