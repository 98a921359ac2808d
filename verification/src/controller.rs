//! The brupop controller, which coordinates updates across the cluster.
use vstd::prelude::*;

verus! {

/// The controller of the cluster.
#[derive(Debug)]
pub struct BrupopController {}

impl BrupopController {
    /// A new controller.
    pub fn new() -> BrupopController {
        BrupopController {}
    }
}

} // verus!
