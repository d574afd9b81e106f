use vstd::prelude::*;

verus! {

/// A client adapter for the discovery service, constructed from the
/// service's endpoint address. The adapter keeps no state beyond it.
#[derive(Debug)]
pub struct DiscoveryServiceAdapter {
    pub url: String,
}

impl DiscoveryServiceAdapter {
    pub fn new(url: &String) -> (r: DiscoveryServiceAdapter)
        ensures
            r.url@ == url@,
    {
        DiscoveryServiceAdapter { url: url.clone() }
    }
}

/// A client adapter for the optional shared memory service.
#[derive(Debug)]
pub struct MemoryServiceAdapter {
    pub url: String,
}

impl MemoryServiceAdapter {
    pub fn new(url: &String) -> (r: MemoryServiceAdapter)
        ensures
            r.url@ == url@,
    {
        MemoryServiceAdapter { url: url.clone() }
    }
}

/// A client adapter for the optional output evaluation service.
#[derive(Debug)]
pub struct EvaluationServiceAdapter {
    pub url: String,
}

impl EvaluationServiceAdapter {
    pub fn new(url: &String) -> (r: EvaluationServiceAdapter)
        ensures
            r.url@ == url@,
    {
        EvaluationServiceAdapter { url: url.clone() }
    }
}

} // verus!
