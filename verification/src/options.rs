//! Values fixed when a framework is constructed.

use vstd::prelude::*;

verus! {

/// The identifier of the application that a framework serves.
#[derive(Clone, Copy, Debug, PartialEq, Eq, Structural)]
pub struct ApplicationId(pub u64);

/// Configuration of a framework, immutable after construction.
pub struct FrameworkOptions<T> {
    /// The cache of recently edited messages, if edit tracking is configured.
    /// The maintenance task purges it at every interval.
    pub edit_tracker: Option<T>,
}

impl<T> Default for FrameworkOptions<T> {
    /// Options without an edit-tracking cache.
    fn default() -> (options: Self)
        ensures
            options.edit_tracker is None,
    {
        FrameworkOptions { edit_tracker: None }
    }
}

} // verus!
