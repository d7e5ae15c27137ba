//! The default way a tester reaches an entity: a TCP connection to the standard
//! DoIP port.
use vstd::prelude::*;

use crate::TCP_PORT;

verus! {

/// Connection to the gateway node on the standard DoIP port.
#[derive(Clone, Copy, Debug)]
pub struct ConnectorSocket;

impl ConnectorSocket {
    /// A gateway port this connector accepts: only [`TCP_PORT`]; any other is
    /// refused with the port given.
    pub fn check_port(port: u16) -> (r: Result<(), u16>)
        ensures
            r is Ok <==> port == TCP_PORT,
            r matches Err(p) ==> p == port,
    {
        if port != TCP_PORT {
            Err(port)
        } else {
            Ok(())
        }
    }
}

} // verus!
