//! Client identifiers.
use vstd::prelude::*;

verus! {

/// Identifies a client and its account.
#[derive(Clone, Copy, Debug, Hash, PartialEq, Eq, Structural)]
pub struct ClientId(pub u16);

impl ClientId {
    pub fn new(id: u16) -> (r: ClientId)
        ensures
            r.0 == id,
    {
        ClientId(id)
    }
}

} // verus!
