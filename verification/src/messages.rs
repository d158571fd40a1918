//! Configuration for a serving front end that exposes the repositories to
//! remote callers. The front end itself (socket handling, request parsing,
//! serialization) is an external collaborator; the library only carries its
//! configuration.

use vstd::prelude::*;

verus! {

/// Configuration for a message-serving front end: the TCP port the external
/// collaborator should bind when it runs.
pub struct MessageApp {
    port: u16,
}

impl MessageApp {
    /// The configured port.
    pub closed spec fn spec_port(&self) -> u16 {
        self.port
    }

    pub fn new(port: u16) -> (r: Self)
        ensures
            r.spec_port() == port,
    {
        MessageApp { port }
    }

    pub fn port(&self) -> (r: u16)
        ensures
            r == self.spec_port(),
    {
        self.port
    }
}

} // verus!
