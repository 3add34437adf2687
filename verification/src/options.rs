//! Options for awaiting an event.

use vstd::prelude::*;
use vstd::std_specs::convert::IntoSpec;

verus! {

/// Options for awaiting an event.
#[derive(Debug)]
pub struct AwaitEventOptions {
    /// The step that the wait is recorded as; one named after the event where there is none.
    pub step_name: Option<String>,
    /// How many seconds to wait at most.
    pub timeout_secs: Option<u64>,
}

impl Clone for AwaitEventOptions {
    fn clone(&self) -> (r: Self)
        ensures
            r == *self,
    {
        let step_name = match &self.step_name {
            Some(name) => Some(name.clone()),
            None => None,
        };
        AwaitEventOptions { step_name, timeout_secs: self.timeout_secs }
    }
}

impl Default for AwaitEventOptions {
    fn default() -> (r: Self)
        ensures
            r.step_name is None,
            r.timeout_secs is None,
    {
        AwaitEventOptions { step_name: None, timeout_secs: None }
    }
}

impl AwaitEventOptions {
    /// No step name and no timeout.
    pub fn new() -> (r: Self)
        ensures
            r.step_name is None,
            r.timeout_secs is None,
    {
        Self::default()
    }

    /// These options with the step name that `name` converts into.
    pub fn with_step_name<N: Into<String>>(self, name: N) -> (r: Self)
        ensures
            r.step_name is Some,
            call_ensures(N::into, (name,), r.step_name->0),
            N::obeys_into_spec() ==> r.step_name->0 == name.into_spec(),
            r.timeout_secs == self.timeout_secs,
    {
        AwaitEventOptions { step_name: Some(name.into()), timeout_secs: self.timeout_secs }
    }

    /// These options with a timeout.
    pub fn with_timeout(self, timeout_secs: u64) -> (r: Self)
        ensures
            r.timeout_secs == Some(timeout_secs),
            r.step_name == self.step_name,
    {
        AwaitEventOptions { step_name: self.step_name, timeout_secs: Some(timeout_secs) }
    }
}

} // verus!
