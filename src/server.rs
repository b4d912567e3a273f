//! The decisions of the server's control-link handler: who may open a
//! tunnel or join a pool, what the answer to an `InitPort` is, how a new
//! tunnel is recorded, and how an external client is paired with a pool
//! entry. Sockets, timers and tasks are the caller's part.

use vstd::prelude::*;

use crate::config::secret_view;
use crate::message::Msg;
use crate::ports::{alloc_error_text, AllocError};
use crate::registry::{CtlConInfo, CtlOpt};

verus! {

/// Peers agree on the secret: both have none, or both have the same.
pub open spec fn authorized(server: Option<Seq<char>>, local: Option<Seq<char>>) -> bool {
    match (server, local) {
        (None, None) => true,
        (Some(a), Some(b)) => a == b,
        _ => false,
    }
}

/// Compares two character sequences in time that depends on their lengths
/// only.
fn same_chars(a: &[char], b: &[char]) -> (r: bool)
    ensures
        r == (a@ == b@),
{
    if a.len() != b.len() {
        return false;
    }
    let mut diff: u32 = 0;
    let mut i: usize = 0;
    assert(a@.take(0) =~= b@.take(0));
    while i < a.len()
        invariant
            a@.len() == b@.len(),
            i <= a@.len(),
            (diff == 0) == (a@.take(i as int) == b@.take(i as int)),
        decreases a@.len() - i,
    {
        let bit: u32 = (a[i] != b[i]) as u32;
        assert(bit == 0 <==> a@[i as int] == b@[i as int]);
        let next: u32 = diff | bit;
        assert((next == 0) == (diff == 0 && bit == 0)) by (bit_vector)
            requires
                next == diff | bit,
        ;
        proof {
            if a@.take(i as int) == b@.take(i as int) && bit == 0 {
                assert(a@.take(i + 1) =~= b@.take(i + 1));
            }
            if a@.take(i + 1) == b@.take(i + 1) {
                assert(a@.take(i + 1)[i as int] == b@.take(i + 1)[i as int]);
                assert(a@.take(i as int) =~= a@.take(i + 1).take(i as int));
                assert(b@.take(i as int) =~= b@.take(i + 1).take(i as int));
            }
        }
        diff = next;
        i = i + 1;
    }
    assert(a@.take(a@.len() as int) =~= a@);
    assert(b@.take(b@.len() as int) =~= b@);
    diff == 0
}

/// Whether a peer's secret admits it: both sides without a secret, or the
/// same secret on both, compared in constant time.
pub fn auth(server_secret: &Option<String>, local_secret: &Option<String>) -> (r: bool)
    ensures
        r == authorized(secret_view(*server_secret), secret_view(*local_secret)),
{
    match (server_secret, local_secret) {
        (None, None) => true,
        (Some(s), Some(l)) => {
            let sc = crate::text::chars_of(s.as_str());
            let lc = crate::text::chars_of(l.as_str());
            same_chars(sc.as_slice(), lc.as_slice())
        },
        _ => false,
    }
}

/// What the handler does with the first message of a control link.
#[derive(Debug)]
pub enum FirstAction {
    /// Allocate the port (0 for any) and open a tunnel on it.
    OpenTunnel(u16),
    /// File the link's stream in the pool for the port.
    JoinPool(u16),
    /// Send this message and close the link.
    Refuse(Msg),
}

/// The reason sent to a peer whose secret does not match.
pub open spec fn auth_failed_text() -> Seq<char> {
    "auth failed"@
}

/// The reason sent to a peer whose first message is neither `InitPort` nor
/// `Connect`.
pub open spec fn unexpected_text() -> Seq<char> {
    "unexpected message"@
}

/// Decides on the first message of a control link: an authorized
/// `InitPort` opens a tunnel, an authorized `Connect` joins the pool, and
/// anything else is refused with an error.
pub fn first_message_action(server_secret: &Option<String>, msg: Msg) -> (r: FirstAction)
    ensures
        match msg {
            Msg::InitPort(port, secret) => if authorized(
                secret_view(*server_secret),
                secret_view(secret),
            ) {
                r == FirstAction::OpenTunnel(port)
            } else {
                r matches FirstAction::Refuse(Msg::Error(e)) && e@ == auth_failed_text()
            },
            Msg::Connect(port, secret) => if authorized(
                secret_view(*server_secret),
                secret_view(secret),
            ) {
                r == FirstAction::JoinPool(port)
            } else {
                r matches FirstAction::Refuse(Msg::Error(e)) && e@ == auth_failed_text()
            },
            _ => r matches FirstAction::Refuse(Msg::Error(e)) && e@ == unexpected_text(),
        },
{
    match msg {
        Msg::InitPort(port, secret) => {
            if auth(server_secret, &secret) {
                FirstAction::OpenTunnel(port)
            } else {
                FirstAction::Refuse(Msg::Error(String::from_str("auth failed")))
            }
        },
        Msg::Connect(port, secret) => {
            if auth(server_secret, &secret) {
                FirstAction::JoinPool(port)
            } else {
                FirstAction::Refuse(Msg::Error(String::from_str("auth failed")))
            }
        },
        _ => FirstAction::Refuse(Msg::Error(String::from_str("unexpected message"))),
    }
}

/// The prefix of the reason sent when no port could be allocated.
pub open spec fn create_failed_prefix() -> Seq<char> {
    "create control port failed: "@
}

/// The answer to an `InitPort`: the port that was bound, or why none was.
pub fn init_port_reply(result: &Result<u16, AllocError>) -> (r: Msg)
    ensures
        match result {
            Ok(port) => r == Msg::InitPort(*port, None),
            Err(e) => r matches Msg::Error(reason) && reason@ == create_failed_prefix()
                + alloc_error_text(*e),
        },
{
    match result {
        Ok(port) => Msg::InitPort(*port, None),
        Err(e) => {
            let detail = e.message();
            Msg::Error(String::from_str("create control port failed: ").concat(detail.as_str()))
        },
    }
}

/// Relies on chrono's `Local::now`, formatted as `%Y-%m-%d %H:%M:%S`: the
/// local time, of which nothing can be promised.
#[verifier::external_body]
fn local_time_now() -> (r: String) {
    chrono::Local::now().format("%Y-%m-%d %H:%M:%S").to_string()
}

/// The record of a tunnel that starts now on `port`, for a control link
/// from `src`, with nothing carried yet.
pub fn new_tunnel_info(port: u16, src: String) -> (r: CtlConInfo)
    ensures
        r.port == port,
        r.src == src,
        r.data == 0,
{
    CtlConInfo { port, src, time: local_time_now(), data: 0 }
}

/// The requests that prime the pool of a new tunnel: one `Connect` for
/// each entry the pool holds.
pub fn prime_requests(port: u16, pool_size: usize) -> (r: Vec<Msg>)
    ensures
        r@.len() == pool_size,
        forall|i: int| 0 <= i < r@.len() ==> r@[i] == Msg::Connect(port, None),
{
    let mut r: Vec<Msg> = Vec::new();
    let mut i: usize = 0;
    while i < pool_size
        invariant
            i <= pool_size,
            r@.len() == i,
            forall|j: int| 0 <= j < r@.len() ==> r@[j] == Msg::Connect(port, None),
        decreases pool_size - i,
    {
        r.push(Msg::Connect(port, None));
        i = i + 1;
    }
    r
}

/// Whether the accept loop of the tunnel on a port goes on: only while the
/// registry holds the tunnel and its control link is open.
pub fn keep_accepting(registered: bool, link_closed: bool) -> (r: bool)
    ensures
        r == (registered && !link_closed),
{
    registered && !link_closed
}

/// The reason sent on a control link whose tunnel the server tears down.
pub open spec fn closed_text() -> Seq<char> {
    "server closed this connection"@
}

/// The message that tells the local end its tunnel is torn down.
pub fn teardown_notice() -> (r: Msg)
    ensures
        r matches Msg::Error(e) && e@ == closed_text(),
{
    Msg::Error(String::from_str("server closed this connection"))
}

/// What the pairing task of an external client does next.
#[derive(Debug)]
pub enum PairingStep<S> {
    /// Proxy the client through this pool entry.
    Proxy(S),
    /// Send this request for a new entry, wait a little, and poll again.
    Retry(Msg),
    /// The tunnel is gone: drop the client.
    Stop,
}

/// Decides on what a poll of the pool for `port` gave: an entry is used, an
/// empty queue asks the local end for another, and a closed pool ends the
/// pairing.
pub fn pairing_step<S>(port: u16, popped: Option<Option<S>>) -> (r: PairingStep<S>)
    ensures
        match popped {
            Some(Some(s)) => r == PairingStep::Proxy(s),
            Some(None) => r == PairingStep::<S>::Retry(Msg::Connect(port, None)),
            None => r == PairingStep::<S>::Stop,
        },
{
    match popped {
        Some(Some(s)) => PairingStep::Proxy(s),
        Some(None) => PairingStep::Retry(Msg::Connect(port, None)),
        None => PairingStep::Stop,
    }
}

/// What a finished pairing on `port` asks of the registry: a transfer that
/// ended without error is counted once, with the bytes it carried each way;
/// one that failed is not counted.
pub fn finished_pairing<E>(port: u16, outcome: Result<(u64, u64), E>) -> (r: Option<CtlOpt>)
    ensures
        match outcome {
            Ok((up, down)) => r == Some(CtlOpt::AddData(port, up, down)),
            Err(_) => r is None,
        },
{
    match outcome {
        Ok((up, down)) => Some(CtlOpt::AddData(port, up, down)),
        Err(_) => None,
    }
}

} // verus!
