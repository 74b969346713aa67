//! The no-op provider behind the virtual scopes: never available, never
//! streaming, and satisfying the provider contract with empty or default
//! results.

use vstd::prelude::*;
use crate::models::{List, Task};
use crate::provider::{ProviderError, TodoProvider};

verus! {

/// The null provider. It reports itself unavailable and without stream
/// support, succeeds vacuously on every mutation, and returns empty or
/// default data on every read.
#[derive(Clone, Copy, Debug)]
pub struct Smart;

impl Smart {
    /// A fresh null provider.
    pub fn new() -> (s: Smart)
        ensures
            s == (Smart {  }),
    {
        Smart {  }
    }
}

impl TodoProvider for Smart {
    /// The null provider is never usable.
    open spec fn available_spec(&self) -> bool {
        false
    }

    /// The null provider never streams.
    open spec fn stream_support_spec(&self) -> bool {
        false
    }

    fn available(&self) -> (r: bool)
        ensures
            !r,
    {
        false
    }

    fn stream_support(&self) -> (r: bool)
        ensures
            !r,
    {
        false
    }

    fn login(&self) -> (r: Result<(), ProviderError>)
        ensures
            r is Ok,
    {
        Ok(())
    }

    fn logout(&self) -> (r: Result<(), ProviderError>)
        ensures
            r is Ok,
    {
        Ok(())
    }

    fn handle_uri_params(&mut self, uri: String) -> (r: Result<(), ProviderError>)
        ensures
            r is Ok,
            *final(self) == *old(self),
    {
        Ok(())
    }

    fn read_tasks(&mut self) -> (r: Result<Vec<Task>, ProviderError>)
        ensures
            r matches Ok(tasks) && tasks@ == Seq::<Task>::empty(),
            *final(self) == *old(self),
    {
        Ok(Vec::new())
    }

    fn read_tasks_from_list(&mut self, parent_list: String) -> (r: Result<
        Vec<Task>,
        ProviderError,
    >)
        ensures
            r matches Ok(tasks) && tasks@ == Seq::<Task>::empty(),
            *final(self) == *old(self),
    {
        Ok(Vec::new())
    }

    /// The null provider has no stream support, so a streaming fetch is a
    /// caller defect and fails loudly.
    fn get_tasks(&mut self, parent_list: String) -> (r: Result<Vec<Task>, ProviderError>)
        ensures
            r == Err::<Vec<Task>, ProviderError>(ProviderError::Unsupported),
            *final(self) == *old(self),
    {
        Err(ProviderError::Unsupported)
    }

    fn read_task(&mut self, task_list_id: String, task_id: String) -> (r: Result<
        Task,
        ProviderError,
    >)
        ensures
            r matches Ok(t) && crate::models::is_default_task(t),
            *final(self) == *old(self),
    {
        Ok(Task::default())
    }

    fn create_task(&mut self, task: Task) -> (r: Result<(), ProviderError>)
        ensures
            r is Ok,
            *final(self) == *old(self),
    {
        Ok(())
    }

    fn update_task(&mut self, task: Task) -> (r: Result<Task, ProviderError>)
        ensures
            r matches Ok(t) && crate::models::is_default_task(t),
            *final(self) == *old(self),
    {
        Ok(Task::default())
    }

    fn delete_task(&mut self, list_id: String, task_id: String) -> (r: Result<(), ProviderError>)
        ensures
            r is Ok,
            *final(self) == *old(self),
    {
        Ok(())
    }

    fn read_lists(&mut self) -> (r: Result<Vec<List>, ProviderError>)
        ensures
            r matches Ok(lists) && lists@ == Seq::<List>::empty(),
            *final(self) == *old(self),
    {
        Ok(Vec::new())
    }

    /// The null provider has no stream support, so a streaming fetch is a
    /// caller defect and fails loudly.
    fn get_lists(&mut self) -> (r: Result<Vec<List>, ProviderError>)
        ensures
            r == Err::<Vec<List>, ProviderError>(ProviderError::Unsupported),
            *final(self) == *old(self),
    {
        Err(ProviderError::Unsupported)
    }

    fn read_list(&mut self, id: String) -> (r: Result<List, ProviderError>)
        ensures
            r matches Ok(l) && crate::models::is_default_list(l),
            *final(self) == *old(self),
    {
        Ok(List::default())
    }

    fn create_list(&mut self, list: List) -> (r: Result<List, ProviderError>)
        ensures
            r matches Ok(l) && crate::models::is_default_list(l),
            *final(self) == *old(self),
    {
        Ok(List::default())
    }

    fn update_list(&mut self, list: List) -> (r: Result<(), ProviderError>)
        ensures
            r is Ok,
            *final(self) == *old(self),
    {
        Ok(())
    }

    fn delete_list(&mut self, id: String) -> (r: Result<(), ProviderError>)
        ensures
            r is Ok,
            *final(self) == *old(self),
    {
        Ok(())
    }
}

} // verus!
