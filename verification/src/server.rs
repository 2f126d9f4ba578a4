//! A server-list entry as the account service reports it.

use vstd::prelude::*;

verus! {

/// One known game server: its display name, its address, and whether
/// it is currently online.
#[derive(Clone, PartialEq, Eq, Debug)]
pub struct ResServer {
    pub name: String,
    pub address: String,
    pub online: bool,
}

impl ResServer {
    pub fn new(name: String, address: String, online: bool) -> (s: Self)
        ensures
            s.name == name,
            s.address == address,
            s.online == online,
    {
        ResServer { name, address, online }
    }
}

} // verus!
