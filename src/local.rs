//! The decisions of the local end's control-link driver: what it asks the
//! server for, how it reads the answer, and what it does with each later
//! message. Dialing, heartbeats and proxying are the caller's part.

use vstd::prelude::*;

use crate::config::Link;
use crate::message::Msg;

verus! {

/// The request that opens the tunnel for `link`.
pub fn init_port_request(link: &Link, secret: &Option<String>) -> (r: Msg)
    ensures
        r == Msg::InitPort(link.remote.port, *secret),
{
    Msg::InitPort(link.remote.port, secret.clone())
}

/// The reason given when the server answers with something unexpected.
pub open spec fn unexpected_reply_text() -> Seq<char> {
    "unexpect msg"@
}

/// Reads the server's answer to `InitPort`: the public port it bound, or
/// the reason it refused.
pub fn init_port_result(reply: Msg) -> (r: Result<u16, String>)
    ensures
        match reply {
            Msg::InitPort(port, _) => r == Ok::<u16, String>(port),
            Msg::Error(e) => r == Err::<u16, String>(e),
            _ => r matches Err(e) && e@ == unexpected_reply_text(),
        },
{
    match reply {
        Msg::InitPort(port, _) => Ok(port),
        Msg::Error(e) => Err(e),
        _ => Err(String::from_str("unexpect msg")),
    }
}

/// What the local end does with a message on an open control link.
#[derive(Debug)]
pub enum LocalAction {
    /// Nothing (a heartbeat, or a message that has no meaning here).
    Ignore,
    /// Close the link with this reason.
    Terminate(String),
    /// Dial the server again, send this message on the new stream, dial the
    /// local service, and proxy between them.
    OpenDataStream(Msg),
}

/// Decides on a message from the server: a `Connect` asks for a new pool
/// entry for its port, which carries the secret; an `Error` ends the link;
/// anything else is ignored.
pub fn on_control_message(msg: Msg, secret: &Option<String>) -> (r: LocalAction)
    ensures
        match msg {
            Msg::Connect(port, _) => r == LocalAction::OpenDataStream(Msg::Connect(port, *secret)),
            Msg::Error(e) => r == LocalAction::Terminate(e),
            _ => r == LocalAction::Ignore,
        },
{
    match msg {
        Msg::Connect(port, _) => LocalAction::OpenDataStream(Msg::Connect(port, secret.clone())),
        Msg::Error(e) => LocalAction::Terminate(e),
        _ => LocalAction::Ignore,
    }
}

} // verus!
