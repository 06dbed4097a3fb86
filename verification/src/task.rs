//! The runtime's handles that the lifecycle steps carry and release.

use vstd::prelude::*;

verus! {

/// `tokio::task::JoinHandle`, carried as an opaque value.
#[verifier::external_type_specification]
#[verifier::external_body]
#[verifier::reject_recursive_types(T)]
pub struct ExJoinHandle<T>(tokio::task::JoinHandle<T>);

/// `tokio::task::JoinError`, which awaiting a `JoinHandle` may yield. It is
/// declared because the handle's type mentions it; no step reads one.
#[verifier::external_type_specification]
#[verifier::external_body]
pub struct ExJoinError(tokio::task::JoinError);

/// `tokio::sync::Mutex`, carried as an opaque value.
#[verifier::external_type_specification]
#[verifier::external_body]
#[verifier::reject_recursive_types(T)]
pub struct ExMutex<T: ?Sized>(tokio::sync::Mutex<T>);

/// Calls `tokio::task::JoinHandle::abort`, which asks the runtime to cancel
/// the task behind the handle. Nothing is claimed of the task afterwards.
#[verifier::external_body]
pub(crate) fn abort_task(task: tokio::task::JoinHandle<()>) {
    task.abort()
}

/// Calls `Arc::clone`, which returns another pointer to the same allocation.
#[verifier::external_body]
pub(crate) fn share<V: ?Sized>(handle: &std::sync::Arc<V>) -> (shared: std::sync::Arc<V>)
    ensures
        shared == *handle,
{
    std::sync::Arc::clone(handle)
}

} // verus!
