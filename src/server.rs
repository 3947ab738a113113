use vstd::prelude::*;
use crate::error::{DnsError, ErrorKind};

verus! {

/// The port a nameserver listens on when none is given.
pub const DEFAULT_DNS_PORT: u16 = 53;

/// The transport used to reach a nameserver.
#[derive(Clone, Copy, Debug, PartialEq, Eq, Structural)]
pub enum Transport {
    Udp,
    Tcp,
    Tls,
    Https,
}

/// A nameserver's socket address and transport; the IP address is held in
/// its canonical display form.
#[derive(Clone, Debug)]
pub struct ServerTarget {
    pub ip: String,
    pub port: u16,
    pub transport: Transport,
}

/// The mathematical form of a `ServerTarget`.
pub struct ServerView {
    pub ip: Seq<char>,
    pub port: u16,
    pub transport: Transport,
}

impl View for ServerTarget {
    type V = ServerView;

    open spec fn view(&self) -> ServerView {
        ServerView { ip: self.ip@, port: self.port, transport: self.transport }
    }
}

/// What became of the `--server` flag before selection: absent, given as a
/// string that reads as "address:port", as a bare address, or as neither,
/// or given as a value that is not a string.
#[derive(Clone, Debug)]
pub enum ServerFlag {
    Absent,
    WithPort(String, u16),
    Bare(String),
    /// Carries the reason the address was refused.
    Unparsable(String),
    NotAString,
}

impl Transport {
    /// The transport's name as the host shows it.
    pub fn name(&self) -> (r: &'static str)
        ensures
            *self == Transport::Udp ==> r@ == "udp"@,
            *self == Transport::Tcp ==> r@ == "tcp"@,
            *self == Transport::Tls ==> r@ == "tls"@,
            *self == Transport::Https ==> r@ == "https"@,
    {
        proof {
            reveal_strlit("udp");
            reveal_strlit("tcp");
            reveal_strlit("tls");
            reveal_strlit("https");
        }
        match self {
            Transport::Udp => "udp",
            Transport::Tcp => "tcp",
            Transport::Tls => "tls",
            Transport::Https => "https",
        }
    }
}

/// ASCII lower case of one character.
pub open spec fn lower_char(c: char) -> char {
    if 'A' <= c <= 'Z' {
        (((c as u8) + 32) as u8) as char
    } else {
        c
    }
}

/// Equality of two strings up to ASCII case.
pub open spec fn eq_ignore_case(a: Seq<char>, b: Seq<char>) -> bool {
    a.len() == b.len() && forall|i: int| 0 <= i < a.len() ==> lower_char(#[trigger] a[i]) == lower_char(b[i])
}

fn lower(c: char) -> (r: char)
    ensures
        r == lower_char(c),
{
    if 'A' <= c && c <= 'Z' {
        ((c as u8) + 32) as char
    } else {
        c
    }
}

/// Compares two strings, ignoring ASCII case.
pub fn str_eq_ignore_case(a: &str, b: &str) -> (r: bool)
    ensures
        r == eq_ignore_case(a@, b@),
{
    let n = a.unicode_len();
    if n != b.unicode_len() {
        return false;
    }
    let mut i: usize = 0;
    while i < n
        invariant
            n == a@.len(),
            n == b@.len(),
            i <= n,
            forall|j: int| 0 <= j < i ==> lower_char(#[trigger] a@[j]) == lower_char(b@[j]),
        decreases n - i,
    {
        if lower(a.get_char(i)) != lower(b.get_char(i)) {
            return false;
        }
        i = i + 1;
    }
    true
}

/// Compares two strings exactly.
pub fn str_eq(a: &str, b: &str) -> (r: bool)
    ensures
        r == (a@ == b@),
{
    let n = a.unicode_len();
    if n != b.unicode_len() {
        return false;
    }
    let mut i: usize = 0;
    while i < n
        invariant
            n == a@.len(),
            n == b@.len(),
            i <= n,
            forall|j: int| 0 <= j < i ==> #[trigger] a@[j] == b@[j],
        decreases n - i,
    {
        if a.get_char(i) != b.get_char(i) {
            return false;
        }
        i = i + 1;
    }
    assert(a@ =~= b@);
    true
}

/// The transport that a `--protocol` value names, in any ASCII case.
pub open spec fn transport_of(s: Seq<char>) -> Option<Transport> {
    if eq_ignore_case(s, "udp"@) {
        Some(Transport::Udp)
    } else if eq_ignore_case(s, "tcp"@) {
        Some(Transport::Tcp)
    } else if eq_ignore_case(s, "tls"@) {
        Some(Transport::Tls)
    } else if eq_ignore_case(s, "https"@) {
        Some(Transport::Https)
    } else {
        None
    }
}

/// Decodes a `--protocol` value.
pub fn parse_transport(s: &str) -> (r: Result<Transport, DnsError>)
    ensures
        r is Ok <==> transport_of(s@) is Some,
        r is Ok ==> r->Ok_0 == transport_of(s@)->Some_0,
        r is Err ==> r->Err_0.kind == ErrorKind::InvalidProtocol,
{
    if str_eq_ignore_case(s, "udp") {
        Ok(Transport::Udp)
    } else if str_eq_ignore_case(s, "tcp") {
        Ok(Transport::Tcp)
    } else if str_eq_ignore_case(s, "tls") {
        Ok(Transport::Tls)
    } else if str_eq_ignore_case(s, "https") {
        Ok(Transport::Https)
    } else {
        Err(DnsError::new(ErrorKind::InvalidProtocol, "Invalid protocol".to_string()))
    }
}

/// The nameserver a query goes to, following the precedence rules:
/// an explicit server takes the explicit protocol or UDP; otherwise the
/// system's first nameserver is used as it is, ignoring the protocol flag;
/// when the system lists none, the built-in default's first nameserver is
/// used, and there the protocol flag overrides its transport.
pub open spec fn select_server_spec(
    flag: ServerFlag,
    protocol: Option<Transport>,
    system: Seq<ServerTarget>,
    fallback: ServerView,
) -> Result<ServerView, ErrorKind> {
    match flag {
        ServerFlag::WithPort(ip, port) => Ok(
            ServerView { ip: ip@, port, transport: protocol.unwrap_or(Transport::Udp) },
        ),
        ServerFlag::Bare(ip) => Ok(
            ServerView {
                ip: ip@,
                port: DEFAULT_DNS_PORT,
                transport: protocol.unwrap_or(Transport::Udp),
            },
        ),
        ServerFlag::Unparsable(_) => Err(ErrorKind::InvalidServerAddress),
        ServerFlag::NotAString => Err(ErrorKind::InvalidServerAddressInput),
        ServerFlag::Absent => if system.len() > 0 {
            Ok(system[0]@)
        } else {
            Ok(ServerView { transport: protocol.unwrap_or(fallback.transport), ..fallback })
        },
    }
}

/// Selects the nameserver and transport; `system` is what the host's
/// configuration lists, `fallback` the built-in default's first nameserver.
pub fn select_server(
    flag: &ServerFlag,
    protocol: Option<Transport>,
    system: &Vec<ServerTarget>,
    fallback: ServerTarget,
) -> (r: Result<ServerTarget, DnsError>)
    ensures
        r is Ok <==> select_server_spec(*flag, protocol, system@, fallback@) is Ok,
        r is Ok ==> r->Ok_0@ == select_server_spec(*flag, protocol, system@, fallback@)->Ok_0,
        r is Err ==> r->Err_0.kind == select_server_spec(*flag, protocol, system@, fallback@)->Err_0,
{
    let explicit = match protocol {
        Some(p) => p,
        None => Transport::Udp,
    };
    match flag {
        ServerFlag::WithPort(ip, port) => Ok(
            ServerTarget { ip: ip.clone(), port: *port, transport: explicit },
        ),
        ServerFlag::Bare(ip) => Ok(
            ServerTarget { ip: ip.clone(), port: DEFAULT_DNS_PORT, transport: explicit },
        ),
        ServerFlag::Unparsable(reason) => Err(
            DnsError::new(ErrorKind::InvalidServerAddress, reason.clone()),
        ),
        ServerFlag::NotAString => Err(
            DnsError::new(
                ErrorKind::InvalidServerAddressInput,
                "invalid input type for server address".to_string(),
            ),
        ),
        ServerFlag::Absent => {
            if system.len() > 0 {
                let first = &system[0];
                Ok(ServerTarget { ip: first.ip.clone(), port: first.port, transport: first.transport })
            } else {
                let transport = match protocol {
                    Some(p) => p,
                    None => fallback.transport,
                };
                Ok(ServerTarget { ip: fallback.ip, port: fallback.port, transport })
            }
        },
    }
}

/// The built-in resolver configuration's first nameserver.
pub open spec fn default_server() -> ServerView {
    ServerView { ip: "8.8.8.8"@, port: 53, transport: Transport::Udp }
}

/// Relies on trust_dns_resolver's `ResolverConfig::default()`, whose
/// nameservers are Google's, each address first over UDP then TCP on port
/// 53, starting with 8.8.8.8.
#[verifier::external_body]
pub fn default_nameserver() -> (r: ServerTarget)
    ensures
        r@ == default_server(),
{
    let config = trust_dns_resolver::config::ResolverConfig::default();
    let ns = &config.name_servers()[0];
    let ip = ns.socket_addr.ip().to_string();
    let transport = match ns.protocol {
        trust_dns_resolver::config::Protocol::Udp => Transport::Udp,
        trust_dns_resolver::config::Protocol::Tcp => Transport::Tcp,
        _ => Transport::Tls,
    };
    ServerTarget { ip, port: ns.socket_addr.port(), transport }
}


/// Without `--server`, the host's first configured nameserver is used as it
/// is whatever `--protocol` says; when the host lists none, the built-in
/// default's address is used and `--protocol`, when given, sets its
/// transport.
pub proof fn lemma_protocol_precedence(
    protocol: Option<Transport>,
    system: Seq<ServerTarget>,
    fallback: ServerView,
)
    ensures
        system.len() > 0 ==> select_server_spec(ServerFlag::Absent, protocol, system, fallback)
            == Ok::<ServerView, ErrorKind>(system[0]@),
        system.len() > 0 ==> select_server_spec(ServerFlag::Absent, protocol, system, fallback)
            == select_server_spec(ServerFlag::Absent, None, system, fallback),
        system.len() == 0 ==> {
            let r = select_server_spec(ServerFlag::Absent, protocol, system, fallback)->Ok_0;
            &&& r.ip == fallback.ip
            &&& r.port == fallback.port
            &&& r.transport == (match protocol {
                Some(p) => p,
                None => fallback.transport,
            })
        },
{
}

/// An explicit server without a port is reached on port 53, over UDP
/// unless `--protocol` names another transport.
pub proof fn lemma_bare_server_defaults(ip: String, protocol: Option<Transport>, system: Seq<ServerTarget>, fallback: ServerView)
    ensures
        select_server_spec(ServerFlag::Bare(ip), protocol, system, fallback)->Ok_0.port == 53,
        protocol is None ==> select_server_spec(ServerFlag::Bare(ip), protocol, system, fallback)->Ok_0.transport
            == Transport::Udp,
{
}

} // verus!
