use vstd::prelude::*;

verus! {

/// A client connected to a namespace, as connect handlers see it.
pub struct Socket {
    pub id: u64,
}

impl Socket {
    pub fn new(id: u64) -> (r: Socket)
        ensures
            r.id == id,
    {
        Socket { id }
    }
}

} // verus!
