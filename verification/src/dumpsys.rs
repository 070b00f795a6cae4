//! The dumper: a located remote service, ready to be asked for its dump.

use vstd::prelude::*;

verus! {

/// A dumper bound to the handle of one remote service.
///
/// The handle is whatever the platform's service registry hands out for a
/// name; nothing here looks inside it.
pub struct Dumpsys<H> {
    service: H,
}

impl<H> Dumpsys<H> {
    /// The handle of the service this dumper asks.
    pub closed spec fn handle(&self) -> H {
        self.service
    }

    /// Makes a dumper from what the service registry found for a name.
    ///
    /// A service that was not found gives no dumper: the absence shows here,
    /// before any dump is attempted.
    pub fn new(located: Option<H>) -> (dumper: Option<Self>)
        ensures
            dumper is Some <==> located is Some,
            located is Some ==> dumper->Some_0.handle() == located->Some_0,
    {
        match located {
            Some(service) => Some(Dumpsys { service }),
            None => None,
        }
    }

    /// The handle of the service, to be cloned for each worker.
    pub fn service(&self) -> (service: &H)
        ensures
            *service == self.handle(),
    {
        &self.service
    }
}

} // verus!
