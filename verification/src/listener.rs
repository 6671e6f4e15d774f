//! The listener: how it is set up, and what it does with each connection.

use openssl::error::ErrorStack;
use openssl::pkey::{PKey, Private};
use openssl::ssl::SslAcceptor;
use openssl::x509::X509;
use vstd::prelude::*;
use vstd::string::StringExecFns;

use crate::connections::{Endpoint, Registry};
use crate::event::handler::{dispatch, reaction, EventHandler};
use crate::event::inbound::{
    inbound_event, inbound_name, outcome_of, route, Inbound, Outcome,
};
use crate::text::push_char;
use crate::tls;

verus! {

/// The port that a listener takes unless it is told otherwise.
pub const DEFAULT_PORT: u16 = 2794;

/// Why a listener cannot be set up or started.
#[derive(Debug, Clone, Copy, PartialEq, Eq, Structural)]
pub enum ConfigError {
    /// The text given as a private key is none.
    BadKey,
    /// The text given as a certificate is none.
    BadCertificate,
    /// A private key was given, but no certificate.
    KeyWithoutCertificate,
    /// A certificate was given, but no private key.
    CertificateWithoutKey,
    /// OpenSSL would not set up an acceptor with the key and certificate.
    Rejected,
}

/// The decimal digit that stands for `d`, which is less than ten.
pub open spec fn digit(d: nat) -> char {
    ('0' as u8 + d) as u8 as char
}

/// A number in decimal digits, without leading zeros.
pub open spec fn decimal(n: nat) -> Seq<char>
    decreases n,
{
    if n < 10 {
        seq![digit(n)]
    } else {
        decimal(n / 10).push(digit(n % 10))
    }
}

/// The address that a listener on `port` binds: every interface of the
/// machine, and the port in decimal.
pub open spec fn bind_address(port: u16) -> Seq<char> {
    "0.0.0.0:"@ + decimal(port as nat)
}

/// Appends `n` in decimal digits.
fn push_decimal(text: &mut String, n: u16)
    ensures
        final(text)@ == old(text)@ + decimal(n as nat),
    decreases n,
{
    if n >= 10 {
        push_decimal(text, n / 10);
    }
    let c = ('0' as u8 + (n % 10) as u8) as char;
    push_char(text, c);
    assert(text@ =~= old(text)@ + decimal(n as nat));
}

/// How a listener is to run.
pub enum Launch {
    /// In the clear, on this port.
    Plain { port: u16 },
    /// Encrypted, on this port, with this acceptor.
    Encrypted { port: u16, acceptor: SslAcceptor },
}

impl Launch {
    /// The port to listen on.
    pub open spec fn spec_port(&self) -> u16 {
        match *self {
            Launch::Plain { port } => port,
            Launch::Encrypted { port, .. } => port,
        }
    }

    /// The port to listen on.
    #[verifier::when_used_as_spec(spec_port)]
    pub fn port(&self) -> (port: u16)
        ensures
            port == self.spec_port(),
    {
        match self {
            Launch::Plain { port } => *port,
            Launch::Encrypted { port, .. } => *port,
        }
    }

    /// The address to bind: `0.0.0.0:` and the port.
    pub fn address(&self) -> (text: String)
        ensures
            text@ == bind_address(self.spec_port()),
    {
        let mut text = String::from_str("0.0.0.0:");
        push_decimal(&mut text, self.port());
        text
    }

    /// Whether connections are to be encrypted.
    pub fn is_encrypted(&self) -> (encrypted: bool)
        ensures
            encrypted == (*self is Encrypted),
    {
        match self {
            Launch::Plain { .. } => false,
            Launch::Encrypted { .. } => true,
        }
    }

    /// An encrypted launch on `port`, if the acceptor could be set up.
    pub fn encrypted(port: u16, built: Result<SslAcceptor, ErrorStack>) -> (launch: Result<
        Launch,
        ConfigError,
    >)
        ensures
            match built {
                Ok(acceptor) => launch == Ok::<Launch, ConfigError>(
                    Launch::Encrypted { port, acceptor },
                ),
                Err(_) => launch == Err::<Launch, ConfigError>(ConfigError::Rejected),
            },
    {
        match built {
            Ok(acceptor) => Ok(Launch::Encrypted { port, acceptor }),
            Err(_) => Err(ConfigError::Rejected),
        }
    }
}

/// Sets up an acceptor with `key` as its private key and `cert` as the
/// certificate that it presents.
fn build_acceptor(key: &PKey<Private>, cert: &X509) -> (built: Result<SslAcceptor, ErrorStack>)
    ensures
        built matches Ok(acceptor) ==> tls::acceptor_certificate(acceptor) == Some(*cert),
{
    match tls::begin_acceptor() {
        Ok(mut builder) => match tls::use_private_key(&mut builder, key) {
            Ok(_) => match tls::use_certificate(&mut builder, cert) {
                Ok(_) => Ok(tls::finish_acceptor(builder)),
                Err(errors) => Err(errors),
            },
            Err(errors) => Err(errors),
        },
        Err(errors) => Err(errors),
    }
}

/// The settings of a listener: the port, and the certificate and private
/// key if connections are to be encrypted.
///
/// Settings are never changed in place: each `with_` method gives a new
/// value and leaves the old one as it was.
#[derive(Debug, Clone)]
pub struct Lister {
    cert: Option<X509>,
    key: Option<PKey<Private>>,
    port: u16,
}

impl Lister {
    /// The certificate, if one was given.
    pub closed spec fn spec_cert(&self) -> Option<X509> {
        self.cert
    }

    /// The private key, if one was given.
    pub closed spec fn spec_key(&self) -> Option<PKey<Private>> {
        self.key
    }

    /// The port to listen on.
    pub closed spec fn spec_port(&self) -> u16 {
        self.port
    }

    /// The settings to begin with: in the clear, on the default port.
    #[must_use]
    pub fn new() -> (lister: Lister)
        ensures
            lister.spec_cert() is None,
            lister.spec_key() is None,
            lister.spec_port() == DEFAULT_PORT,
    {
        Lister { cert: None, key: None, port: DEFAULT_PORT }
    }

    /// The port to listen on.
    #[verifier::when_used_as_spec(spec_port)]
    pub fn port(&self) -> (port: u16)
        ensures
            port == self.spec_port(),
    {
        self.port
    }

    /// Whether a private key was given.
    pub fn has_key(&self) -> (given: bool)
        ensures
            given == self.spec_key() is Some,
    {
        self.key.is_some()
    }

    /// Whether a certificate was given.
    pub fn has_cert(&self) -> (given: bool)
        ensures
            given == self.spec_cert() is Some,
    {
        self.cert.is_some()
    }

    /// A copy of the certificate's handle.
    fn shared_cert(&self) -> (cert: Option<X509>)
        ensures
            cert == self.spec_cert(),
    {
        match &self.cert {
            Some(cert) => Some(tls::share_certificate(cert)),
            None => None,
        }
    }

    /// A copy of the key's handle.
    fn shared_key(&self) -> (key: Option<PKey<Private>>)
        ensures
            key == self.spec_key(),
    {
        match &self.key {
            Some(key) => Some(tls::share_key(key)),
            None => None,
        }
    }

    /// These settings with the private key that OpenSSL read, or the error
    /// if it read none.
    pub fn keyed(&self, parsed: Result<PKey<Private>, ErrorStack>) -> (next: Result<
        Lister,
        ConfigError,
    >)
        ensures
            match (parsed, next) {
                (Ok(key), Ok(lister)) => {
                    &&& lister.spec_key() == Some(key)
                    &&& lister.spec_cert() == self.spec_cert()
                    &&& lister.spec_port() == self.spec_port()
                },
                (Err(_), Err(error)) => error == ConfigError::BadKey,
                _ => false,
            },
    {
        match parsed {
            Ok(key) => Ok(Lister { cert: self.shared_cert(), key: Some(key), port: self.port }),
            Err(_) => Err(ConfigError::BadKey),
        }
    }

    /// These settings with the certificate that OpenSSL read, or the error
    /// if it read none.
    pub fn certified(&self, parsed: Result<X509, ErrorStack>) -> (next: Result<
        Lister,
        ConfigError,
    >)
        ensures
            match (parsed, next) {
                (Ok(cert), Ok(lister)) => {
                    &&& lister.spec_cert() == Some(cert)
                    &&& lister.spec_key() == self.spec_key()
                    &&& lister.spec_port() == self.spec_port()
                },
                (Err(_), Err(error)) => error == ConfigError::BadCertificate,
                _ => false,
            },
    {
        match parsed {
            Ok(cert) => Ok(Lister { cert: Some(cert), key: self.shared_key(), port: self.port }),
            Err(_) => Err(ConfigError::BadCertificate),
        }
    }

    /// These settings with the private key that `key` holds as PEM text.
    ///
    /// Fails with `BadKey` if OpenSSL reads no private key from the text; a
    /// text too long for OpenSSL is not handed to it and fails likewise.
    pub fn with_key(&self, key: &[u8]) -> (next: Result<Lister, ConfigError>)
        ensures
            key@.len() > tls::MAX_PEM_LEN ==> next is Err,
            match next {
                Ok(lister) => {
                    &&& lister.spec_key() is Some
                    &&& lister.spec_cert() == self.spec_cert()
                    &&& lister.spec_port() == self.spec_port()
                },
                Err(error) => error == ConfigError::BadKey,
            },
    {
        if key.len() > tls::MAX_PEM_LEN {
            return Err(ConfigError::BadKey);
        }
        self.keyed(tls::private_key_from_pem(key))
    }

    /// These settings with the certificate that `cert` holds as PEM text.
    ///
    /// Fails with `BadCertificate` if OpenSSL reads no certificate from the
    /// text; a text too long for OpenSSL is not handed to it and fails
    /// likewise.
    pub fn with_cert(&self, cert: &[u8]) -> (next: Result<Lister, ConfigError>)
        ensures
            cert@.len() > tls::MAX_PEM_LEN ==> next is Err,
            match next {
                Ok(lister) => {
                    &&& lister.spec_cert() is Some
                    &&& lister.spec_key() == self.spec_key()
                    &&& lister.spec_port() == self.spec_port()
                },
                Err(error) => error == ConfigError::BadCertificate,
            },
    {
        if cert.len() > tls::MAX_PEM_LEN {
            return Err(ConfigError::BadCertificate);
        }
        self.certified(tls::certificate_from_pem(cert))
    }

    /// Decides how the listener is to run, before any socket is opened.
    ///
    /// With neither key nor certificate it runs in the clear. With both it
    /// runs encrypted and presents the certificate, unless OpenSSL rejects
    /// the pair. With only one of the two it does not run.
    pub fn start(&self) -> (launch: Result<Launch, ConfigError>)
        ensures
            match (self.spec_key(), self.spec_cert()) {
                (None, None) => launch == Ok::<Launch, ConfigError>(
                    Launch::Plain { port: self.spec_port() },
                ),
                (Some(_), None) => launch == Err::<Launch, ConfigError>(
                    ConfigError::KeyWithoutCertificate,
                ),
                (None, Some(_)) => launch == Err::<Launch, ConfigError>(
                    ConfigError::CertificateWithoutKey,
                ),
                (Some(_), Some(cert)) => match launch {
                    Ok(plan) => {
                        &&& plan matches Launch::Encrypted { port, acceptor }
                        &&& port == self.spec_port()
                        &&& tls::acceptor_certificate(acceptor) == Some(cert)
                    },
                    Err(error) => error == ConfigError::Rejected,
                },
            },
    {
        match (&self.key, &self.cert) {
            (None, None) => Ok(Launch::Plain { port: self.port }),
            (Some(_), None) => Err(ConfigError::KeyWithoutCertificate),
            (None, Some(_)) => Err(ConfigError::CertificateWithoutKey),
            (Some(key), Some(cert)) => Launch::encrypted(self.port, build_acceptor(key, cert)),
        }
    }
}

/// Where a connection stands in its life.
#[derive(Debug, Clone, Copy, PartialEq, Eq, Structural)]
pub enum Phase {
    /// Accepted, handshake not yet done.
    Connecting,
    /// Handshake done: the connection is registered.
    Open,
    /// Gone. A connection never leaves this phase.
    Closed,
}

/// The listener's side of one connection.
#[derive(Clone, Copy)]
pub struct Server<H: EventHandler> {
    out: Endpoint,
    handler: H,
    phase: Phase,
}

impl<H: EventHandler> Server<H> {
    /// The address of the connection.
    pub closed spec fn spec_out(&self) -> Endpoint {
        self.out
    }

    /// Where the connection stands in its life.
    pub closed spec fn spec_phase(&self) -> Phase {
        self.phase
    }

    /// The application's handler.
    pub closed spec fn spec_handler(&self) -> H {
        self.handler
    }

    /// The listener's side of a connection that was just accepted.
    pub fn new(out: Endpoint, handler: H) -> (server: Self)
        ensures
            server.spec_out() == out,
            server.spec_handler() == handler,
            server.spec_phase() == Phase::Connecting,
    {
        Server { out, handler, phase: Phase::Connecting }
    }

    /// The address of the connection.
    #[verifier::when_used_as_spec(spec_out)]
    pub fn out(&self) -> (out: Endpoint)
        ensures
            out == self.spec_out(),
    {
        self.out
    }

    /// Where the connection stands in its life.
    #[verifier::when_used_as_spec(spec_phase)]
    pub fn phase(&self) -> (phase: Phase)
        ensures
            phase == self.spec_phase(),
    {
        self.phase
    }

    /// The handshake is done: the connection opens and is registered.
    ///
    /// Only a connection that is still connecting opens; on any other the
    /// call changes nothing.
    pub fn on_open(&mut self, registry: &mut Registry)
        ensures
            final(self).spec_out() == old(self).spec_out(),
            final(self).spec_handler() == old(self).spec_handler(),
            old(self).spec_phase() == Phase::Connecting ==> {
                &&& final(self).spec_phase() == Phase::Open
                &&& final(registry)@ == old(registry)@.insert(
                    old(self).spec_out().token,
                    old(self).spec_out().connection_id,
                )
            },
            old(self).spec_phase() != Phase::Connecting ==> {
                &&& final(self).spec_phase() == old(self).spec_phase()
                &&& final(registry)@ == old(registry)@
            },
    {
        if self.phase == Phase::Connecting {
            registry.register(self.out);
            self.phase = Phase::Open;
        }
    }

    /// The connection is gone, by the peer's wish or by an error: it is
    /// closed for good, and deregistered if it was open.
    ///
    /// A second call changes nothing, so a connection is deregistered once.
    pub fn on_close(&mut self, registry: &mut Registry)
        ensures
            final(self).spec_out() == old(self).spec_out(),
            final(self).spec_handler() == old(self).spec_handler(),
            final(self).spec_phase() == Phase::Closed,
            old(self).spec_phase() == Phase::Open ==> final(registry)@ == old(registry)@.remove(
                old(self).spec_out().token,
            ),
            old(self).spec_phase() != Phase::Open ==> final(registry)@ == old(registry)@,
    {
        if self.phase == Phase::Open {
            registry.deregister(self.out.token);
        }
        self.phase = Phase::Closed;
    }

    /// Acts on one inbound frame: reads it, and calls the handler of the
    /// event it reports, with the connection as the origin.
    ///
    /// A frame that is no envelope is dropped and an event that is not
    /// known is ignored; neither is an error, and neither touches the
    /// connection.
    pub fn on_message(&self, msg: &str) -> (outcome: Outcome)
        ensures
            outcome == outcome_of(inbound_name(msg@, "event_name"@)),
            outcome matches Outcome::Handled(kind) ==> reaction(
                &self.spec_handler(),
                kind,
                inbound_event(msg@, "event"@),
                &self.spec_out(),
            ),
    {
        match route(msg) {
            Inbound::Known { kind, event } => {
                dispatch(&self.handler, kind, event, &self.out);
                Outcome::Handled(kind)
            },
            Inbound::Unknown => Outcome::Ignored,
            Inbound::Malformed => Outcome::Dropped,
        }
    }
}

/// Whether the registry holds exactly the connections that are open, each
/// under its own address.
pub open spec fn registry_agrees<H: EventHandler>(
    connections: Seq<Server<H>>,
    live: Map<usize, u32>,
) -> bool {
    &&& forall|i: int|
        0 <= i < connections.len() && (#[trigger] connections[i]).spec_phase() == Phase::Open
            ==> live.contains_key(connections[i].spec_out().token)
            && live[connections[i].spec_out().token] == connections[i].spec_out().connection_id
    &&& forall|token: usize|
        live.contains_key(token) ==> exists|i: int|
            0 <= i < connections.len() && (#[trigger] connections[i]).spec_phase() == Phase::Open
                && connections[i].spec_out().token == token
}

/// Whether no two connections that have not closed share a token. The
/// transport sees to that: it hands a token out again only when the
/// connection that had it is gone.
pub open spec fn tokens_unique<H: EventHandler>(connections: Seq<Server<H>>) -> bool {
    forall|i: int, j: int|
        0 <= i < j < connections.len() && (#[trigger] connections[i]).spec_phase() != Phase::Closed
            && (#[trigger] connections[j]).spec_phase() != Phase::Closed
            ==> connections[i].spec_out().token != connections[j].spec_out().token
}

/// Opening connection `k` keeps the registry in step with the connections:
/// if a token was registered exactly while its connection was open before
/// `on_open`, it is so afterwards.
pub proof fn lemma_on_open_keeps_agreement<H: EventHandler>(
    connections: Seq<Server<H>>,
    live: Map<usize, u32>,
    k: int,
    opened: Server<H>,
    live_after: Map<usize, u32>,
)
    requires
        0 <= k < connections.len(),
        registry_agrees(connections, live),
        tokens_unique(connections),
        opened.spec_out() == connections[k].spec_out(),
        connections[k].spec_phase() == Phase::Connecting ==> {
            &&& opened.spec_phase() == Phase::Open
            &&& live_after == live.insert(
                connections[k].spec_out().token,
                connections[k].spec_out().connection_id,
            )
        },
        connections[k].spec_phase() != Phase::Connecting ==> {
            &&& opened.spec_phase() == connections[k].spec_phase()
            &&& live_after == live
        },
    ensures
        registry_agrees(connections.update(k, opened), live_after),
        tokens_unique(connections.update(k, opened)),
{
    let after = connections.update(k, opened);
    let mine = connections[k].spec_out().token;
    assert forall|i: int|
        0 <= i < after.len() && (#[trigger] after[i]).spec_phase() == Phase::Open implies
        live_after.contains_key(after[i].spec_out().token)
        && live_after[after[i].spec_out().token] == after[i].spec_out().connection_id by {
        if i != k {
            assert(after[i] == connections[i]);
            if connections[k].spec_phase() == Phase::Connecting {
                if i < k {
                    assert(connections[i].spec_out().token != connections[k].spec_out().token);
                } else {
                    assert(connections[k].spec_out().token != connections[i].spec_out().token);
                }
            }
        }
    }
    assert forall|token: usize| live_after.contains_key(token) implies exists|i: int|
        0 <= i < after.len() && (#[trigger] after[i]).spec_phase() == Phase::Open
            && after[i].spec_out().token == token by {
        if connections[k].spec_phase() == Phase::Connecting && token == mine {
            assert(after[k].spec_phase() == Phase::Open);
        } else {
            let i = choose|i: int|
                0 <= i < connections.len() && (#[trigger] connections[i]).spec_phase()
                    == Phase::Open && connections[i].spec_out().token == token;
            assert(after[i].spec_phase() == Phase::Open && after[i].spec_out().token == token);
        }
    }
    assert forall|i: int, j: int|
        0 <= i < j < after.len() && (#[trigger] after[i]).spec_phase() != Phase::Closed && (
        #[trigger] after[j]).spec_phase() != Phase::Closed implies after[i].spec_out().token
        != after[j].spec_out().token by {
        assert(connections[i].spec_phase() != Phase::Closed);
        assert(connections[j].spec_phase() != Phase::Closed);
    }
}

/// Closing connection `k` keeps the registry in step with the connections:
/// if a token was registered exactly while its connection was open before
/// `on_close`, it is so afterwards.
pub proof fn lemma_on_close_keeps_agreement<H: EventHandler>(
    connections: Seq<Server<H>>,
    live: Map<usize, u32>,
    k: int,
    closed: Server<H>,
    live_after: Map<usize, u32>,
)
    requires
        0 <= k < connections.len(),
        registry_agrees(connections, live),
        tokens_unique(connections),
        closed.spec_out() == connections[k].spec_out(),
        closed.spec_phase() == Phase::Closed,
        connections[k].spec_phase() == Phase::Open ==> live_after == live.remove(
            connections[k].spec_out().token,
        ),
        connections[k].spec_phase() != Phase::Open ==> live_after == live,
    ensures
        registry_agrees(connections.update(k, closed), live_after),
        tokens_unique(connections.update(k, closed)),
{
    let after = connections.update(k, closed);
    assert forall|i: int|
        0 <= i < after.len() && (#[trigger] after[i]).spec_phase() == Phase::Open implies
        live_after.contains_key(after[i].spec_out().token)
        && live_after[after[i].spec_out().token] == after[i].spec_out().connection_id by {
        assert(i != k);
        assert(after[i] == connections[i]);
        if connections[k].spec_phase() == Phase::Open {
            if i < k {
                assert(connections[i].spec_out().token != connections[k].spec_out().token);
            } else {
                assert(connections[k].spec_out().token != connections[i].spec_out().token);
            }
        }
    }
    assert forall|token: usize| live_after.contains_key(token) implies exists|i: int|
        0 <= i < after.len() && (#[trigger] after[i]).spec_phase() == Phase::Open
            && after[i].spec_out().token == token by {
        let i = choose|i: int|
            0 <= i < connections.len() && (#[trigger] connections[i]).spec_phase() == Phase::Open
                && connections[i].spec_out().token == token;
        if i == k {
            assert(connections[k].spec_phase() == Phase::Open);
            assert(!live_after.contains_key(token));
        }
        assert(after[i].spec_phase() == Phase::Open && after[i].spec_out().token == token);
    }
    assert forall|i: int, j: int|
        0 <= i < j < after.len() && (#[trigger] after[i]).spec_phase() != Phase::Closed && (
        #[trigger] after[j]).spec_phase() != Phase::Closed implies after[i].spec_out().token
        != after[j].spec_out().token by {
        assert(i != k && j != k);
        assert(after[i] == connections[i]);
        assert(after[j] == connections[j]);
    }
}

} // verus!
