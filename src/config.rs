//! The configuration: its types, the syntax of links, addresses and port
//! ranges, and how a configuration file and the command line override the
//! defaults. Reading the file and the command line is the caller's part.

use std::ops::Range;
use vstd::prelude::*;

use crate::pool::DEFAULT_POOL_SIZE;
use crate::text::{
    chars_of, parse_u16, parse_u16_spec, split_chars, split_on, string_of, lemma_split_nonempty,
};

verus! {

/// Which end of a tunnel this process is.
#[derive(Clone, Copy, Debug, PartialEq, Eq)]
pub enum Mode {
    /// Next to the private services; dials the server.
    Local,
    /// On the public host; accepts control links and external clients.
    Server,
}

/// A host and a port.
#[derive(Debug)]
pub struct Address {
    /// The host name or address.
    pub host: String,
    /// The port.
    pub port: u16,
}

impl View for Address {
    type V = (Seq<char>, u16);

    open spec fn view(&self) -> (Seq<char>, u16) {
        (self.host@, self.port)
    }
}

impl Clone for Address {
    fn clone(&self) -> (r: Self)
        ensures
            r == *self,
    {
        Address { host: self.host.clone(), port: self.port }
    }
}

/// A local service and the server that exposes it.
#[derive(Debug)]
pub struct Link {
    /// The private service.
    pub local: Address,
    /// The server, and the public port asked for (0 for any).
    pub remote: Address,
}

impl View for Link {
    type V = ((Seq<char>, u16), (Seq<char>, u16));

    open spec fn view(&self) -> ((Seq<char>, u16), (Seq<char>, u16)) {
        (self.local@, self.remote@)
    }
}

impl Clone for Link {
    fn clone(&self) -> (r: Self)
        ensures
            r == *self,
    {
        Link { local: self.local.clone(), remote: self.remote.clone() }
    }
}

/// The configuration a process runs with.
#[derive(Debug)]
pub struct StabConfig {
    /// Run mode.
    pub mode: Mode,
    /// The server's control port.
    pub port: u16,
    /// Log level, 1 (errors) to 5 (everything).
    pub log: u8,
    /// Where log files go.
    pub log_path: String,
    /// Hex SHA-256 of the shared secret, if any.
    pub secret: Option<String>,
    /// Local mode: the links to open.
    pub links: Vec<Link>,
    /// Server mode: the public ports tunnels may use.
    pub port_range: Range<u16>,
    /// Server mode: the management web port.
    pub web_port: u16,
    /// Server mode: the most ready data connections kept per tunnel.
    pub pool_size: usize,
}

/// The command line, as parsed.
#[derive(Debug)]
pub struct StabArgs {
    /// Run mode.
    pub mode: Option<Mode>,
    /// A configuration file to read first.
    pub file: Option<String>,
    /// The server's control port.
    pub control_port: Option<u16>,
    /// Log level, 1 to 5.
    pub log: Option<u8>,
    /// Where log files go.
    pub log_path: Option<String>,
    /// The shared secret, in clear.
    pub secret: Option<String>,
    /// A link to open, in local mode.
    pub link: Option<Link>,
    /// The public ports tunnels may use, in server mode.
    pub port_range: Option<Range<u16>>,
    /// The management web port, in server mode.
    pub web_port: Option<u16>,
    /// Ready data connections kept per tunnel, in server mode.
    pub pool_size: Option<usize>,
}

/// A configuration file, as parsed.
#[derive(Debug)]
pub struct FileConfig {
    /// Run mode.
    pub mode: Option<Mode>,
    /// The server's control port.
    pub port: Option<u16>,
    /// The shared secret, in clear.
    pub secret: Option<String>,
    /// Log level, 1 to 5.
    pub log: Option<u8>,
    /// Where log files go.
    pub log_path: Option<String>,
    /// Settings of the local mode.
    pub local: Option<LocalConfig>,
    /// Settings of the server mode.
    pub server: Option<ServerConfig>,
}

/// The local section of a configuration file.
#[derive(Debug)]
pub struct LocalConfig {
    /// Links, each in the syntax of `parse_link`.
    pub links: Option<Vec<String>>,
    /// The server host for links that name none.
    pub to: Option<String>,
}

/// The server section of a configuration file.
#[derive(Debug)]
pub struct ServerConfig {
    /// The management web port.
    pub web_port: Option<u16>,
    /// The port range, as `min-max`.
    pub port_range: Option<String>,
    /// Ready data connections kept per tunnel.
    pub pool_size: Option<usize>,
}

/// How much is logged.
#[derive(Clone, Copy, Debug, PartialEq, Eq)]
pub enum LogLevel {
    /// Errors only.
    Error,
    /// Errors and warnings.
    Warn,
    /// Also progress.
    Info,
    /// Also details.
    Debug,
    /// Everything.
    Trace,
}

/// What is wrong with a configuration.
#[derive(Debug)]
pub enum ConfigError {
    /// A port range that is not `min-max` with `min < max`.
    PortRange,
    /// A link that does not follow the link syntax.
    Link,
    /// Local mode without any link.
    NoLinks,
}

impl ConfigError {
    /// The error's text.
    pub fn message(&self) -> (r: String)
        ensures
            r@ == config_error_text(*self),
    {
        match self {
            ConfigError::PortRange => String::from_str("parse port range failed"),
            ConfigError::Link => String::from_str(
                "parse link failed,format: 80=stab.com or localhost:80=stab.com:8989",
            ),
            ConfigError::NoLinks => String::from_str("No provide links"),
        }
    }
}

/// The text of a configuration error.
pub open spec fn config_error_text(e: ConfigError) -> Seq<char> {
    match e {
        ConfigError::PortRange => "parse port range failed"@,
        ConfigError::Link => "parse link failed,format: 80=stab.com or localhost:80=stab.com:8989"@,
        ConfigError::NoLinks => "No provide links"@,
    }
}

/// The level that a configured number selects; anything but 1 to 4 logs
/// everything.
pub open spec fn level_of(log: u8) -> LogLevel {
    if log == 1 {
        LogLevel::Error
    } else if log == 2 {
        LogLevel::Warn
    } else if log == 3 {
        LogLevel::Info
    } else if log == 4 {
        LogLevel::Debug
    } else {
        LogLevel::Trace
    }
}

/// The log level for a configured number.
pub fn log_level(log: u8) -> (r: LogLevel)
    ensures
        r == level_of(log),
{
    match log {
        1 => LogLevel::Error,
        2 => LogLevel::Warn,
        3 => LogLevel::Info,
        4 => LogLevel::Debug,
        _ => LogLevel::Trace,
    }
}

/// The range `min-max` that `s` writes, with `min < max`.
pub open spec fn range_spec(s: Seq<char>) -> Option<(u16, u16)> {
    let p = split_on(s, '-');
    if p.len() == 2 {
        match (parse_u16_spec(p[0]), parse_u16_spec(p[1])) {
            (Some(min), Some(max)) => if min < max {
                Some((min, max))
            } else {
                None
            },
            _ => None,
        }
    } else {
        None
    }
}

/// Reads a port range written `min-max`; `max` is excluded.
pub fn cmd_parse_range(s: &str) -> (r: Result<Range<u16>, ConfigError>)
    ensures
        match range_spec(s@) {
            Some((min, max)) => r matches Ok(range) && range.start == min && range.end == max,
            None => r matches Err(ConfigError::PortRange),
        },
{
    let chars = chars_of(s);
    let p = split_chars(chars.as_slice(), '-');
    assert(p@.map_values(|v: Vec<char>| v@).len() == p@.len());
    if p.len() != 2 {
        return Err(ConfigError::PortRange);
    }
    assert(p@[0]@ == split_on(s@, '-')[0]);
    assert(p@[1]@ == split_on(s@, '-')[1]);
    let min = parse_u16(p[0].as_slice());
    let max = parse_u16(p[1].as_slice());
    match (min, max) {
        (Some(min), Some(max)) => {
            if min >= max {
                return Err(ConfigError::PortRange);
            }
            Ok(Range { start: min, end: max })
        },
        _ => Err(ConfigError::PortRange),
    }
}

/// The view of an optional string.
pub open spec fn opt_view(s: Option<&str>) -> Option<Seq<char>> {
    match s {
        Some(h) => Some(h@),
        None => None,
    }
}

/// The address that `addr` writes: `host:port`; a lone port, with the
/// default host; or a lone host, with the default port.
pub open spec fn address_spec(
    addr: Seq<char>,
    default_host: Option<Seq<char>>,
    default_port: Option<u16>,
) -> Option<(Seq<char>, u16)> {
    let p = split_on(addr, ':');
    if p.len() == 1 {
        match parse_u16_spec(p[0]) {
            Some(port) => match default_host {
                Some(h) => Some((h, port)),
                None => None,
            },
            None => match default_port {
                Some(dp) => Some((p[0], dp)),
                None => None,
            },
        }
    } else if p.len() == 2 {
        match parse_u16_spec(p[1]) {
            Some(port) => Some((p[0], port)),
            None => None,
        }
    } else {
        None
    }
}

fn address_of(addr: &[char], default_host: Option<&str>, default_port: Option<u16>) -> (r: Option<
    Address,
>)
    ensures
        match r {
            Some(a) => address_spec(addr@, opt_view(default_host), default_port) == Some(a@),
            None => address_spec(addr@, opt_view(default_host), default_port) is None,
        },
{
    let p = split_chars(addr, ':');
    proof {
        lemma_split_nonempty(addr@, ':');
    }
    assert(p@.map_values(|v: Vec<char>| v@).len() == p@.len());
    if p.len() > 2 {
        return None;
    }
    assert(p@[0]@ == split_on(addr@, ':')[0]);
    if p.len() == 1 {
        match parse_u16(p[0].as_slice()) {
            Some(port) => match default_host {
                Some(h) => Some(Address { host: h.to_owned(), port }),
                None => None,
            },
            None => match default_port {
                Some(dp) => Some(Address { host: string_of(p[0].as_slice()), port: dp }),
                None => None,
            },
        }
    } else {
        assert(p@[1]@ == split_on(addr@, ':')[1]);
        match parse_u16(p[1].as_slice()) {
            Some(port) => Some(Address { host: string_of(p[0].as_slice()), port }),
            None => None,
        }
    }
}

/// Reads an address: `host:port`; a lone port, which takes `default_host`;
/// or a lone host, which takes `default_port`.
pub fn parse_address(addr: &str, default_host: Option<&str>, default_port: Option<u16>) -> (r:
    Option<Address>)
    ensures
        match r {
            Some(a) => address_spec(addr@, opt_view(default_host), default_port) == Some(a@),
            None => address_spec(addr@, opt_view(default_host), default_port) is None,
        },
{
    let chars = chars_of(addr);
    address_of(chars.as_slice(), default_host, default_port)
}

/// The host a link's local side takes where it names none.
pub open spec fn default_local_host() -> Seq<char> {
    "127.0.0.1"@
}

/// The link that `raw` writes: `local=remote`, where the local side defaults
/// its host to 127.0.0.1 and the remote side its host to `to` and its port
/// to 0; or, where `to` is given, a lone local side, for port 0 on `to`.
pub open spec fn link_spec(raw: Seq<char>, to: Option<Seq<char>>) -> Option<
    ((Seq<char>, u16), (Seq<char>, u16)),
> {
    let a = split_on(raw, '=');
    if a.len() == 1 && to is Some {
        match address_spec(a[0], Some(default_local_host()), None) {
            Some(local) => Some((local, (to->0, 0u16))),
            None => None,
        }
    } else if a.len() == 2 {
        match (
            address_spec(a[0], Some(default_local_host()), None),
            address_spec(a[1], to, Some(0u16)),
        ) {
            (Some(local), Some(remote)) => Some((local, remote)),
            _ => None,
        }
    } else {
        None
    }
}

/// Reads a link, as in `80=stab.com` or `localhost:80=stab.com:8989`; `to`
/// is the server host for links that name none.
pub fn parse_link(raw_link: &str, to: Option<&str>) -> (r: Result<Link, ConfigError>)
    ensures
        match link_spec(raw_link@, opt_view(to)) {
            Some(l) => r matches Ok(link) && link@ == l,
            None => r matches Err(ConfigError::Link),
        },
{
    let chars = chars_of(raw_link);
    let a = split_chars(chars.as_slice(), '=');
    proof {
        lemma_split_nonempty(raw_link@, '=');
    }
    assert(a@.map_values(|v: Vec<char>| v@).len() == a@.len());
    assert(a@[0]@ == split_on(raw_link@, '=')[0]);
    let localhost = "127.0.0.1";
    assert(localhost@ == default_local_host());
    if a.len() == 1 && to.is_some() {
        let local = match address_of(a[0].as_slice(), Some(localhost), None) {
            Some(local) => local,
            None => return Err(ConfigError::Link),
        };
        let host = match to {
            Some(t) => t.to_owned(),
            None => String::new(),
        };
        return Ok(Link { local, remote: Address { host, port: 0 } });
    }
    if a.len() != 2 {
        return Err(ConfigError::Link);
    }
    assert(a@[1]@ == split_on(raw_link@, '=')[1]);
    let local = match address_of(a[0].as_slice(), Some(localhost), None) {
        Some(local) => local,
        None => return Err(ConfigError::Link),
    };
    let remote = match address_of(a[1].as_slice(), to, Some(0)) {
        Some(remote) => remote,
        None => return Err(ConfigError::Link),
    };
    Ok(Link { local, remote })
}

/// Reads a link given on the command line, which names its server host.
pub fn cmd_parse_link(raw_link: &str) -> (r: Result<Link, ConfigError>)
    ensures
        match link_spec(raw_link@, None) {
            Some(l) => r matches Ok(link) && link@ == l,
            None => r matches Err(ConfigError::Link),
        },
{
    parse_link(raw_link, None)
}

/// The hex SHA-256 digest of a secret, as sha2 computes it.
pub uninterp spec fn sha256_hex(secret: Seq<char>) -> Seq<char>;

/// Relies on sha2's `Sha256` over the secret's UTF-8 bytes, printed as
/// lower-case hex by generic-array's `LowerHex`: a function of the secret
/// alone.
#[verifier::external_body]
fn hash_secret(secret: &str) -> (r: String)
    ensures
        r@ == sha256_hex(secret@),
{
    let digest = sha2::Digest::finalize(
        sha2::Digest::chain_update(<sha2::Sha256 as sha2::Digest>::new(), secret),
    );
    format!("{:x}", digest)
}

/// `o`'s value, or `d` where it has none.
pub open spec fn or_else<T>(o: Option<T>, d: T) -> T {
    match o {
        Some(v) => v,
        None => d,
    }
}

/// The stored secret after a configured one: its digest, or the old one
/// where none is configured.
pub open spec fn secret_after(given: Option<String>, old: Option<String>) -> Option<Seq<char>> {
    match given {
        Some(s) => Some(sha256_hex(s@)),
        None => match old {
            Some(o) => Some(o@),
            None => None,
        },
    }
}

/// The view of an optional string.
pub open spec fn secret_view(s: Option<String>) -> Option<Seq<char>> {
    match s {
        Some(v) => Some(v@),
        None => None,
    }
}

/// The port range used where none is configured.
pub const DEFAULT_PORT_RANGE_START: u16 = 1024;

/// The end of the port range used where none is configured.
pub const DEFAULT_PORT_RANGE_END: u16 = 65535;

/// The configuration before any file or argument: server mode on control
/// port 5656, full logging into `logs`, no secret, no links, ports
/// 1024 to 65534, web port 3400, pools of 8.
pub fn default_config() -> (r: StabConfig)
    ensures
        r.mode == Mode::Server,
        r.port == 5656,
        r.log == 5,
        r.log_path@ == "logs"@,
        r.secret is None,
        r.links@.len() == 0,
        r.port_range.start == DEFAULT_PORT_RANGE_START,
        r.port_range.end == DEFAULT_PORT_RANGE_END,
        r.web_port == 3400,
        r.pool_size == DEFAULT_POOL_SIZE,
{
    StabConfig {
        mode: Mode::Server,
        port: 5656,
        log: 5,
        log_path: String::from_str("logs"),
        secret: None,
        links: Vec::new(),
        port_range: Range { start: DEFAULT_PORT_RANGE_START, end: DEFAULT_PORT_RANGE_END },
        web_port: 3400,
        pool_size: DEFAULT_POOL_SIZE,
    }
}

/// Some link of `raws` does not follow the link syntax.
pub open spec fn some_link_bad(raws: Seq<String>, to: Option<Seq<char>>) -> bool {
    exists|i: int| 0 <= i < raws.len() && (#[trigger] link_spec(raws[i]@, to)) is None
}

/// `links` is `before` followed by the links that `raws` write, in order.
pub open spec fn links_appended(
    before: Seq<Link>,
    links: Seq<Link>,
    raws: Seq<String>,
    to: Option<Seq<char>>,
) -> bool {
    &&& links.len() == before.len() + raws.len()
    &&& forall|i: int| 0 <= i < before.len() ==> links[i] == before[i]
    &&& forall|i: int|
        0 <= i < raws.len() ==> link_spec(#[trigger] raws[i]@, to) == Some(
            links[before.len() + i]@,
        )
}

/// Appends the links that `raws` write to `out`; fails, having appended
/// some, where one of them is not a link.
fn parse_links(raws: &Vec<String>, to: Option<&str>, out: &mut Vec<Link>) -> (r: Result<
    (),
    ConfigError,
>)
    ensures
        some_link_bad(raws@, opt_view(to)) ==> r matches Err(ConfigError::Link),
        !some_link_bad(raws@, opt_view(to)) ==> r is Ok && links_appended(
            old(out)@,
            final(out)@,
            raws@,
            opt_view(to),
        ),
{
    let mut i: usize = 0;
    while i < raws.len()
        invariant
            i <= raws@.len(),
            forall|j: int| 0 <= j < i ==> (#[trigger] link_spec(raws@[j]@, opt_view(to))) is Some,
            links_appended(old(out)@, out@, raws@.take(i as int), opt_view(to)),
        decreases raws@.len() - i,
    {
        match parse_link(raws[i].as_str(), to) {
            Ok(link) => {
                out.push(link);
            },
            Err(e) => {
                assert(link_spec(raws@[i as int]@, opt_view(to)) is None);
                return Err(e);
            },
        }
        i = i + 1;
        assert(forall|j: int| 0 <= j < i ==> raws@.take(i as int)[j] == raws@[j]);
    }
    assert(raws@.take(i as int) =~= raws@);
    Ok(())
}

/// The file's port range is given and not `min-max` with `min < max`.
pub open spec fn file_range_bad(file: FileConfig) -> bool {
    match file.server {
        Some(s) => match s.port_range {
            Some(r) => range_spec(r@) is None,
            None => false,
        },
        None => false,
    }
}

/// The server host that the file's links default to.
pub open spec fn file_to(l: LocalConfig) -> Option<Seq<char>> {
    secret_view(l.to)
}

/// Some link of the file is not a link.
pub open spec fn file_links_bad(file: FileConfig) -> bool {
    match file.local {
        Some(l) => match l.links {
            Some(raws) => some_link_bad(raws@, file_to(l)),
            None => false,
        },
        None => false,
    }
}

/// `cfg` is `old` with the settings of `file` applied: each setting the
/// file gives replaces the old one, its secret is stored as a digest, its
/// port range replaces the old one (the default range where its server
/// section names none), and its links are appended.
pub open spec fn file_applied(old: StabConfig, cfg: StabConfig, file: FileConfig) -> bool {
    &&& cfg.mode == or_else(file.mode, old.mode)
    &&& cfg.port == or_else(file.port, old.port)
    &&& cfg.log == or_else(file.log, old.log)
    &&& cfg.log_path == or_else(file.log_path, old.log_path)
    &&& secret_view(cfg.secret) == secret_after(file.secret, old.secret)
    &&& match file.server {
        Some(s) => {
            &&& cfg.web_port == or_else(s.web_port, old.web_port)
            &&& cfg.pool_size == or_else(s.pool_size, old.pool_size)
            &&& match s.port_range {
                Some(r) => range_spec(r@) == Some((cfg.port_range.start, cfg.port_range.end)),
                None => cfg.port_range.start == DEFAULT_PORT_RANGE_START && cfg.port_range.end
                    == DEFAULT_PORT_RANGE_END,
            }
        },
        None => {
            &&& cfg.web_port == old.web_port
            &&& cfg.pool_size == old.pool_size
            &&& cfg.port_range == old.port_range
        },
    }
    &&& match file.local {
        Some(l) => match l.links {
            Some(raws) => links_appended(old.links@, cfg.links@, raws@, file_to(l)),
            None => cfg.links@ == old.links@,
        },
        None => cfg.links@ == old.links@,
    }
}

/// Applies a configuration file. Fails on a bad port range, and otherwise
/// on a bad link.
pub fn apply_file_config(cfg: &mut StabConfig, file: FileConfig) -> (r: Result<(), ConfigError>)
    ensures
        file_range_bad(file) ==> r matches Err(ConfigError::PortRange),
        !file_range_bad(file) && file_links_bad(file) ==> r matches Err(ConfigError::Link),
        !file_range_bad(file) && !file_links_bad(file) ==> r is Ok && file_applied(
            *old(cfg),
            *final(cfg),
            file,
        ),
{
    let ghost file0 = file;
    let FileConfig { mode, port, secret, log, log_path, local, server } = file;
    if let Some(m) = mode {
        cfg.mode = m;
    }
    if let Some(p) = port {
        cfg.port = p;
    }
    if let Some(l) = log {
        cfg.log = l;
    }
    if let Some(p) = log_path {
        cfg.log_path = p;
    }
    if let Some(s) = secret {
        cfg.secret = Some(hash_secret(s.as_str()));
    }
    if let Some(s) = server {
        if let Some(w) = s.web_port {
            cfg.web_port = w;
        }
        if let Some(n) = s.pool_size {
            cfg.pool_size = n;
        }
        match s.port_range {
            Some(raw) => {
                match cmd_parse_range(raw.as_str()) {
                    Ok(range) => {
                        cfg.port_range = range;
                    },
                    Err(e) => {
                        return Err(e);
                    },
                }
            },
            None => {
                cfg.port_range = Range {
                    start: DEFAULT_PORT_RANGE_START,
                    end: DEFAULT_PORT_RANGE_END,
                };
            },
        }
    }
    if let Some(l) = local {
        if let Some(raws) = l.links {
            let to = match &l.to {
                Some(t) => Some(t.as_str()),
                None => None,
            };
            let r = parse_links(&raws, to, &mut cfg.links);
            return r;
        }
    }
    Ok(())
}

/// `cfg` is `old` with the command line `args` applied: each setting given
/// replaces the old one, the secret is stored as a digest, and the link is
/// appended.
pub open spec fn args_applied(old: StabConfig, cfg: StabConfig, args: StabArgs) -> bool {
    &&& cfg.mode == or_else(args.mode, old.mode)
    &&& cfg.port == or_else(args.control_port, old.port)
    &&& cfg.log == or_else(args.log, old.log)
    &&& cfg.log_path == or_else(args.log_path, old.log_path)
    &&& secret_view(cfg.secret) == secret_after(args.secret, old.secret)
    &&& cfg.port_range == or_else(args.port_range, old.port_range)
    &&& cfg.web_port == or_else(args.web_port, old.web_port)
    &&& cfg.pool_size == or_else(args.pool_size, old.pool_size)
    &&& match args.link {
        Some(l) => cfg.links@ == old.links@.push(l),
        None => cfg.links@ == old.links@,
    }
}

/// Applies the command line, after any configuration file. Fails where the
/// result is in local mode without links.
pub fn apply_args(cfg: &mut StabConfig, args: StabArgs) -> (r: Result<(), ConfigError>)
    ensures
        args_applied(*old(cfg), *final(cfg), args),
        final(cfg).mode == Mode::Local && final(cfg).links@.len() == 0 ==> r matches Err(
            ConfigError::NoLinks,
        ),
        !(final(cfg).mode == Mode::Local && final(cfg).links@.len() == 0) ==> r is Ok,
{
    let StabArgs {
        mode,
        file: _,
        control_port,
        log,
        log_path,
        secret,
        link,
        port_range,
        web_port,
        pool_size,
    } = args;
    if let Some(m) = mode {
        cfg.mode = m;
    }
    if let Some(p) = control_port {
        cfg.port = p;
    }
    if let Some(l) = log {
        cfg.log = l;
    }
    if let Some(p) = log_path {
        cfg.log_path = p;
    }
    if let Some(s) = secret {
        cfg.secret = Some(hash_secret(s.as_str()));
    }
    if let Some(l) = link {
        cfg.links.push(l);
    }
    if let Some(r) = port_range {
        cfg.port_range = r;
    }
    if let Some(w) = web_port {
        cfg.web_port = w;
    }
    if let Some(n) = pool_size {
        cfg.pool_size = n;
    }
    match cfg.mode {
        Mode::Local => {
            if cfg.links.len() == 0 {
                return Err(ConfigError::NoLinks);
            }
        },
        Mode::Server => {},
    }
    Ok(())
}

} // verus!
