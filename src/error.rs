use vstd::prelude::*;

verus! {

/// A request refused at the transport boundary.
#[derive(Debug, Clone, Copy, PartialEq, Eq, Structural)]
pub enum RequestError {
    PayloadTooLarge { limit: usize },
}

} // verus!
