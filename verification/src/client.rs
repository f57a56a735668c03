use vstd::prelude::*;

verus! {

/// A client known only by its identifier, as the plain WebSocket transport
/// keeps it.
pub struct Client {
    pub identifier: String,
}

impl Client {
    pub fn new(identifier: String) -> (c: Client)
        ensures
            c.identifier == identifier,
    {
        Client { identifier }
    }
}

} // verus!
