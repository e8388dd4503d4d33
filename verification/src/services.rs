//! The bdev RPC service endpoints.  The services carry no state of their
//! own; their transport bindings live outside the library.

use vstd::prelude::*;

verus! {

/// The bdev RPC service of the earlier control-plane surface.
#[derive(Debug)]
pub struct BdevSvc {}

impl BdevSvc {
    /// A new service endpoint.
    pub fn new() -> (r: BdevSvc)
        ensures
            r == (BdevSvc {  }),
    {
        BdevSvc {  }
    }
}

impl Default for BdevSvc {
    fn default() -> (r: BdevSvc)
        ensures
            r == (BdevSvc {  }),
    {
        BdevSvc::new()
    }
}

/// The bdev RPC service of the present control-plane surface.
#[derive(Debug)]
pub struct BdevService {}

impl BdevService {
    /// A new service endpoint.
    pub fn new() -> (r: BdevService)
        ensures
            r == (BdevService {  }),
    {
        BdevService {  }
    }
}

impl Default for BdevService {
    fn default() -> (r: BdevService)
        ensures
            r == (BdevService {  }),
    {
        BdevService::new()
    }
}

} // verus!
