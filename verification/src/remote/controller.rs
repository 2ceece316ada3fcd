//! The client's handle on the boat.

use vstd::prelude::*;
use crate::remote::net::{default_address, RemoteNet};

verus! {

/// The connection to the boat's server, through which every remote
/// operation goes.
#[derive(Debug, Clone)]
pub struct RemoteController {
    pub net: RemoteNet,
}

impl RemoteController {
    /// A controller for the server at the default address.
    pub fn new() -> (c: RemoteController)
        ensures
            c.net.address@ == default_address(),
    {
        RemoteController { net: RemoteNet::new() }
    }
}

} // verus!
