//! Liveness probe: a service that only answers that it is alive.

use vstd::prelude::*;

verus! {

pub struct HealthServiceImpl {}

impl HealthServiceImpl {
    pub fn new() -> (r: HealthServiceImpl)
        ensures
            r == (HealthServiceImpl {  }),
    {
        HealthServiceImpl {  }
    }
}

} // verus!
