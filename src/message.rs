//! The messages exchanged on every control link.

use vstd::prelude::*;

verus! {

/// A control-link message.
#[derive(Debug)]
pub enum Msg {
    /// Open a tunnel on a port (0 for any), with an optional secret; the
    /// server answers with the port it bound.
    InitPort(u16, Option<String>),
    /// From the local end: this stream is a pool entry for the port. From the
    /// server: please open one more pool entry for the port.
    Connect(u16, Option<String>),
    /// Liveness probe.
    Heartbeat,
    /// Terminal error with its reason.
    Error(String),
}

impl Clone for Msg {
    fn clone(&self) -> (r: Self)
        ensures
            r == *self,
    {
        match self {
            Msg::InitPort(p, s) => Msg::InitPort(*p, s.clone()),
            Msg::Connect(p, s) => Msg::Connect(*p, s.clone()),
            Msg::Heartbeat => Msg::Heartbeat,
            Msg::Error(e) => Msg::Error(e.clone()),
        }
    }
}

} // verus!
