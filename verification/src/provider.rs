//! The provider abstraction: the capability-polymorphic contract every
//! backend satisfies, and the error taxonomy its operations report.

use vstd::prelude::*;
use crate::models::{List, Task};

verus! {

/// The ways a provider operation can fail.
#[derive(Clone, Copy, Debug, PartialEq, Eq, Structural)]
pub enum ProviderError {
    /// Login or logout failed.
    Auth,
    /// The network or the backend failed during a read, write or fetch.
    Transport,
    /// A task or list was absent on read.
    NotFound,
    /// A streaming fetch was requested from a provider that lacks stream
    /// support; a caller defect, not a recoverable condition.
    Unsupported,
}

/// The contract every backend implements. The two capability queries do no
/// I/O and gate what callers may attempt: no operation may be tried on an
/// unavailable provider, and the streaming fetches fail with
/// [`ProviderError::Unsupported`] wherever stream support is absent.
///
/// A streaming fetch is returned here as the sequence of items the stream
/// emits, in emission order; delivering them one at a time is the caller's
/// concern.
pub trait TodoProvider: Sized {
    /// Whether the provider is usable at all; a provider that does not say
    /// otherwise is not.
    open spec fn available_spec(&self) -> bool {
        false
    }

    /// Whether the provider can emit tasks incrementally; a provider that
    /// does not say otherwise cannot.
    open spec fn stream_support_spec(&self) -> bool {
        false
    }

    /// Capability query behind [`Self::available_spec`]; no I/O.
    fn available(&self) -> (r: bool)
        ensures
            r == self.available_spec(),
    ;

    /// Capability query behind [`Self::stream_support_spec`]; no I/O.
    fn stream_support(&self) -> (r: bool)
        ensures
            r == self.stream_support_spec(),
    ;

    /// Establishes the provider's authentication state.
    fn login(&self) -> Result<(), ProviderError>;

    /// Tears down the provider's authentication state.
    fn logout(&self) -> Result<(), ProviderError>;

    /// Consumes an out-of-band redirect or callback URI, completing an
    /// external auth flow; no return payload.
    fn handle_uri_params(&mut self, uri: String) -> Result<(), ProviderError>;

    /// The full task set across all lists of this provider, in bulk.
    fn read_tasks(&mut self) -> Result<Vec<Task>, ProviderError>;

    /// The task set scoped to one list, in bulk.
    fn read_tasks_from_list(&mut self, parent_list: String) -> Result<Vec<Task>, ProviderError>;

    /// The tasks of one list as a stream would emit them, in order; fails
    /// with [`ProviderError::Unsupported`] where stream support is absent.
    fn get_tasks(&mut self, parent_list: String) -> (r: Result<Vec<Task>, ProviderError>)
        ensures
            !old(self).stream_support_spec() ==> r == Err::<Vec<Task>, ProviderError>(
                ProviderError::Unsupported,
            ),
    ;

    /// One task of one list.
    fn read_task(&mut self, task_list_id: String, task_id: String) -> Result<Task, ProviderError>;

    /// Creates a task on the backend.
    fn create_task(&mut self, task: Task) -> Result<(), ProviderError>;

    /// Updates a task on the backend and returns the updated task.
    fn update_task(&mut self, task: Task) -> Result<Task, ProviderError>;

    /// Deletes a task from the backend.
    fn delete_task(&mut self, list_id: String, task_id: String) -> Result<(), ProviderError>;

    /// All lists of this provider, in bulk.
    fn read_lists(&mut self) -> Result<Vec<List>, ProviderError>;

    /// The provider's lists as a stream would emit them, in order; fails
    /// with [`ProviderError::Unsupported`] where stream support is absent.
    fn get_lists(&mut self) -> (r: Result<Vec<List>, ProviderError>)
        ensures
            !old(self).stream_support_spec() ==> r == Err::<Vec<List>, ProviderError>(
                ProviderError::Unsupported,
            ),
    ;

    /// One list by identifier.
    fn read_list(&mut self, id: String) -> Result<List, ProviderError>;

    /// Creates a list on the backend and returns it as stored.
    fn create_list(&mut self, list: List) -> Result<List, ProviderError>;

    /// Updates a list on the backend.
    fn update_list(&mut self, list: List) -> Result<(), ProviderError>;

    /// Deletes a list from the backend.
    fn delete_list(&mut self, id: String) -> Result<(), ProviderError>;
}

} // verus!
