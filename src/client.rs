//! The address side of the trace store client.
use vstd::prelude::*;

verus! {

/// The path under the base address where traces are written and read.
pub open spec fn traces_path() -> Seq<char> {
    seq!['/', 't', 'r', 'a', 'c', 'e', 's']
}

/// A client of the trace store at one base address.
#[derive(Clone, Debug)]
pub struct TracerClient {
    pub base_url: String,
}

impl TracerClient {
    pub fn new(base_url: String) -> (r: TracerClient)
        ensures
            r.base_url@ == base_url@,
    {
        TracerClient { base_url }
    }

    /// The address of the store's trace collection: the base address
    /// followed by `/traces`.
    pub fn traces_url(&self) -> (r: String)
        ensures
            r@ == self.base_url@ + traces_path(),
    {
        let mut url = self.base_url.clone();
        url.append("/traces");
        proof {
            reveal_strlit("/traces");
            assert(url@ =~= self.base_url@ + traces_path());
        }
        url
    }
}

} // verus!
