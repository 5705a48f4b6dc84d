//! Immutable, shareable handles for named hardware events.

use vstd::prelude::*;
use vstd::string::*;

use crate::errors::PapiError;
use crate::errors::PAPI_OK;

verus! {

/// A symbolic event name resolved to the runtime's internal event
/// code. A `Counter` holds no runtime resource and may be used in any
/// number of counter sets.
#[derive(Debug)]
pub struct Counter {
    /// The symbolic name the event was resolved from.
    pub name: String,
    /// The runtime's internal code for the event.
    pub code: i32,
}

impl Clone for Counter {
    fn clone(&self) -> (r: Self)
        ensures
            r == *self,
    {
        Counter { name: self.name.clone(), code: self.code }
    }
}

impl Counter {
    /// Builds the handle from the runtime's answer to a name lookup:
    /// a success status yields the handle carrying the resolved code,
    /// any other status is the lookup's failure, carried unchanged.
    /// A name the platform does not expose resolves to the status
    /// whose kind is `EventNotFound`.
    pub fn from_resolution(name: &str, status: i32, code: i32) -> (r: Result<Counter, PapiError>)
        ensures
            status == PAPI_OK ==> (r matches Ok(c) && c.name@ == name@ && c.code == code),
            status != PAPI_OK ==> r == Err::<Counter, PapiError>(PapiError { code: status }),
    {
        if status == PAPI_OK {
            Ok(Counter { name: String::from_str(name), code })
        } else {
            Err(PapiError { code: status })
        }
    }
}

} // verus!
