use vstd::prelude::*;

verus! {

/// Parameters for the import pipeline: independent upper bounds on the
/// number of outstanding network requests for the header stage and the
/// transaction stage.
#[derive(Clone, Copy, Debug)]
pub struct Config {
    /// The maximum number of get header requests in flight at once.
    pub max_get_header_requests: usize,
    /// The maximum number of get transaction requests in flight at once.
    pub max_get_txns_requests: usize,
}

impl Default for Config {
    /// Both stage bounds default to ten outstanding requests.
    fn default() -> (c: Config)
        ensures
            c.max_get_header_requests == 10,
            c.max_get_txns_requests == 10,
    {
        Config { max_get_header_requests: 10, max_get_txns_requests: 10 }
    }
}

} // verus!
