//! Model of the TLS-terminating connection dispatcher.
//!
//! A listener accepts raw transport connections and hands each one to an
//! independent task. The task defers the TLS handshake just long enough to
//! read the ClientHello, resolves certificate material through a pluggable
//! resolver, completes the handshake, and then serves application traffic;
//! every failure is confined to the one connection it occurred on.
//!
//! The asynchronous driver that performs the socket, TLS and HTTP work
//! cannot be verified, so it lives outside the library. This module holds
//! the decisions that driver follows: the per-connection state machine
//! ([`Connection::step`]), the classification of accept errors, the exact
//! plaintext error response, and the certificate resolvers.

use vstd::prelude::*;

verus! {

use vstd::slice::slice_to_vec;
use tokio_rustls::rustls::pki_types::pem::PemObject;
use tokio_rustls::rustls::pki_types::CertificateDer;
use tokio_rustls::rustls::pki_types::PrivateKeyDer;

// ---------------------------------------------------------------------------
// Client hello and server configuration models
// ---------------------------------------------------------------------------

/// What the dispatcher reads from a parsed ClientHello: the requested
/// server name (SNI), if any, and the ALPN protocols the client offered.
pub struct ClientHelloInfo {
    pub server_name: Option<String>,
    pub alpn_offers: Vec<Vec<u8>>,
}

/// Mathematical view of [`ClientHelloInfo`].
#[verifier::ext_equal]
pub struct ClientHelloInfoView {
    pub server_name: Option<Seq<char>>,
    pub alpn_offers: Seq<Seq<u8>>,
}

impl View for ClientHelloInfo {
    type V = ClientHelloInfoView;

    open spec fn view(&self) -> ClientHelloInfoView {
        ClientHelloInfoView {
            server_name: match self.server_name {
                Some(ref s) => Some(s@),
                None => None,
            },
            alpn_offers: self.alpn_offers@.map_values(|p: Vec<u8>| p@),
        }
    }
}

/// The TLS server parameters a resolver produces: a DER certificate chain,
/// a DER private key, and the ALPN protocols the server advertises.
pub struct ServerConfig {
    pub cert_chain: Vec<Vec<u8>>,
    pub key_der: Vec<u8>,
    pub alpn_protocols: Vec<Vec<u8>>,
}

/// Mathematical view of [`ServerConfig`].
#[verifier::ext_equal]
pub struct ServerConfigView {
    pub cert_chain: Seq<Seq<u8>>,
    pub key_der: Seq<u8>,
    pub alpn_protocols: Seq<Seq<u8>>,
}

impl View for ServerConfig {
    type V = ServerConfigView;

    open spec fn view(&self) -> ServerConfigView {
        ServerConfigView {
            cert_chain: self.cert_chain@.map_values(|c: Vec<u8>| c@),
            key_der: self.key_der@,
            alpn_protocols: self.alpn_protocols@.map_values(|p: Vec<u8>| p@),
        }
    }
}

impl ServerConfigView {
    /// A usable configuration presents at least one certificate.
    pub open spec fn wf(self) -> bool {
        self.cert_chain.len() > 0
    }
}

// ---------------------------------------------------------------------------
// Byte-sequence helpers
// ---------------------------------------------------------------------------

/// Byte-wise equality of two vectors.
pub fn bytes_eq(a: &Vec<u8>, b: &Vec<u8>) -> (r: bool)
    ensures
        r == (a@ == b@),
{
    if a.len() != b.len() {
        return false;
    }
    let n = a.len();
    let mut i: usize = 0;
    while i < n
        invariant
            n == a@.len(),
            n == b@.len(),
            0 <= i <= n,
            forall|j: int| 0 <= j < i ==> a@[j] == b@[j],
        decreases n - i,
    {
        if a[i] != b[i] {
            return false;
        }
        i = i + 1;
    }
    proof {
        assert(a@ =~= b@);
    }
    true
}

/// Whether `p` occurs in `list`, comparing byte-wise.
pub fn contains_protocol(list: &Vec<Vec<u8>>, p: &Vec<u8>) -> (r: bool)
    ensures
        r == list@.map_values(|v: Vec<u8>| v@).contains(p@),
{
    let ghost views = list@.map_values(|v: Vec<u8>| v@);
    let n = list.len();
    let mut i: usize = 0;
    while i < n
        invariant
            n == list@.len(),
            views == list@.map_values(|v: Vec<u8>| v@),
            0 <= i <= n,
            forall|j: int| 0 <= j < i ==> views[j] != p@,
        decreases n - i,
    {
        if bytes_eq(&list[i], p) {
            assert(views[i as int] == p@);
            return true;
        }
        i = i + 1;
    }
    assert(forall|j: int| 0 <= j < views.len() ==> views[j] != p@);
    false
}

// ---------------------------------------------------------------------------
// The error reporter's wire format
// ---------------------------------------------------------------------------

/// The bytes of `HTTP/1.1 400 Bad Request\r\n\r\n\r\n`: the one plaintext
/// response a peer receives when its handshake is rejected.
pub open spec fn spec_error_response() -> Seq<u8> {
    seq![
        72u8, 84u8, 84u8, 80u8, 47u8, 49u8, 46u8, 49u8, 32u8, 52u8, 48u8, 48u8, 32u8, 66u8,
        97u8, 100u8, 32u8, 82u8, 101u8, 113u8, 117u8, 101u8, 115u8, 116u8, 13u8, 10u8, 13u8,
        10u8, 13u8, 10u8,
    ]
}

/// The exact plaintext written to a peer whose handshake failed, before the
/// connection is abandoned. The write is attempted once and never retried.
pub fn error_response_bytes() -> (r: Vec<u8>)
    ensures
        r@ == spec_error_response(),
{
    let mut v: Vec<u8> = Vec::new();
    v.push(72);
    v.push(84);
    v.push(84);
    v.push(80);
    v.push(47);
    v.push(49);
    v.push(46);
    v.push(49);
    v.push(32);
    v.push(52);
    v.push(48);
    v.push(48);
    v.push(32);
    v.push(66);
    v.push(97);
    v.push(100);
    v.push(32);
    v.push(82);
    v.push(101);
    v.push(113);
    v.push(117);
    v.push(101);
    v.push(115);
    v.push(116);
    v.push(13);
    v.push(10);
    v.push(13);
    v.push(10);
    v.push(13);
    v.push(10);
    proof {
        assert(v@ =~= spec_error_response());
    }
    v
}

// ---------------------------------------------------------------------------
// Listener loop decisions
// ---------------------------------------------------------------------------

/// The accept-error classes the listener distinguishes.
#[derive(Clone, Copy, Debug, PartialEq, Eq, Structural)]
pub enum AcceptErrorKind {
    ConnectionRefused,
    ConnectionAborted,
    ConnectionReset,
    Other,
}

/// Whether an accept error is transient: the peer gave up before the
/// accept completed, and the listener retries immediately and silently.
pub open spec fn spec_is_connection_error(kind: AcceptErrorKind) -> bool {
    ||| kind is ConnectionRefused
    ||| kind is ConnectionAborted
    ||| kind is ConnectionReset
}

/// Classifies an accept error: refused, aborted and reset mean the peer
/// disappeared before acceptance completed.
pub fn is_connection_error(kind: &AcceptErrorKind) -> (r: bool)
    ensures
        r == spec_is_connection_error(*kind),
{
    match kind {
        AcceptErrorKind::ConnectionRefused => true,
        AcceptErrorKind::ConnectionAborted => true,
        AcceptErrorKind::ConnectionReset => true,
        AcceptErrorKind::Other => false,
    }
}

/// What one `accept()` call produced.
#[derive(Clone, Copy, Debug, PartialEq, Eq, Structural)]
pub enum AcceptOutcome {
    Accepted,
    Failed { kind: AcceptErrorKind },
}

/// What the listener does next. Every variant continues the loop: no
/// per-connection condition ever terminates the listener.
#[derive(Clone, Copy, Debug, PartialEq, Eq, Structural)]
pub enum AcceptAction {
    /// Move the new connection into its own task and keep accepting.
    Dispatch,
    /// Transient failure: retry immediately, without logging.
    Retry,
    /// Any other failure: log it and pause before retrying, so an
    /// accept-error storm is throttled.
    LogAndPause { pause_millis: u64 },
}

/// The fixed pause after a non-transient accept error: one second.
pub open spec fn spec_accept_action(outcome: AcceptOutcome) -> AcceptAction {
    match outcome {
        AcceptOutcome::Accepted => AcceptAction::Dispatch,
        AcceptOutcome::Failed { kind } => if spec_is_connection_error(kind) {
            AcceptAction::Retry
        } else {
            AcceptAction::LogAndPause { pause_millis: 1000 }
        },
    }
}

/// The listener's reaction to one accept outcome: dispatch a fresh
/// connection, silently retry after a transient error, or log and pause
/// for one second after any other error.
pub fn tcp_accept_action(outcome: &AcceptOutcome) -> (a: AcceptAction)
    ensures
        a == spec_accept_action(*outcome),
{
    match outcome {
        AcceptOutcome::Accepted => AcceptAction::Dispatch,
        AcceptOutcome::Failed { kind } => {
            if is_connection_error(kind) {
                AcceptAction::Retry
            } else {
                AcceptAction::LogAndPause { pause_millis: 1000 }
            }
        },
    }
}

/// The listener never terminates on a per-connection condition: every
/// accept outcome maps to an action that continues the loop, and the pause
/// taken after a non-transient error is exactly one second.
pub proof fn lemma_listener_always_continues(outcome: AcceptOutcome)
    ensures
        spec_accept_action(outcome) is Dispatch || spec_accept_action(outcome) is Retry
            || spec_accept_action(outcome) == (AcceptAction::LogAndPause { pause_millis: 1000u64 }),
{
}

// ---------------------------------------------------------------------------
// Per-connection state machine
// ---------------------------------------------------------------------------

/// Where a connection stands in its life. A connection moves from `Raw`
/// through `HelloObserved` and `Configured` to `Negotiated`, or to
/// `Aborted` when any stage fails, and ends `Closed`.
pub enum ConnState {
    /// Accepted; no TLS bytes interpreted yet.
    Raw,
    /// The ClientHello was parsed; the resolver is being consulted.
    HelloObserved { hello: ClientHelloInfo },
    /// The resolver produced server parameters; the handshake is being
    /// completed with them.
    Configured { config: ServerConfig },
    /// The handshake completed: an encrypted stream exists, secured with
    /// `config` and carrying the negotiated ALPN outcome.
    Negotiated { config: ServerConfig, alpn: Option<Vec<u8>> },
    /// The connection failed before an encrypted stream existed.
    Aborted,
    /// The connection is finished; its task ends.
    Closed,
}

/// Mathematical view of [`ConnState`].
pub enum ConnStateView {
    Raw,
    HelloObserved { hello: ClientHelloInfoView },
    Configured { config: ServerConfigView },
    Negotiated { config: ServerConfigView, alpn: Option<Seq<u8>> },
    Aborted,
    Closed,
}

impl View for ConnState {
    type V = ConnStateView;

    open spec fn view(&self) -> ConnStateView {
        match self {
            ConnState::Raw => ConnStateView::Raw,
            ConnState::HelloObserved { hello } => ConnStateView::HelloObserved { hello: hello@ },
            ConnState::Configured { config } => ConnStateView::Configured { config: config@ },
            ConnState::Negotiated { config, alpn } => ConnStateView::Negotiated {
                config: config@,
                alpn: match alpn {
                    Some(p) => Some(p@),
                    None => None,
                },
            },
            ConnState::Aborted => ConnStateView::Aborted,
            ConnState::Closed => ConnStateView::Closed,
        }
    }
}

/// What the driver observed from the outside world for one connection.
pub enum ConnEvent {
    /// The deferred acceptor parsed a well-formed ClientHello.
    HelloParsed { hello: ClientHelloInfo },
    /// The preamble was malformed: not a TLS client.
    HelloRejected,
    /// The certificate resolver returned server parameters.
    Resolved { config: ServerConfig },
    /// The certificate resolver failed.
    ResolveFailed,
    /// The resolved parameters could not be built into a working server
    /// configuration (for instance, the private key does not match the
    /// certificate chain): a certificate build failure, found before the
    /// handshake resumed, and owed the same report as a resolver failure.
    ConfigBuildFailed,
    /// The handshake completed with this ALPN outcome.
    HandshakeComplete { alpn: Option<Vec<u8>> },
    /// The handshake could not be completed (cipher or certificate
    /// mismatch, or the peer vanished).
    HandshakeFailed,
    /// The plaintext error response was written, or the attempt failed and
    /// was swallowed; either way the connection is being abandoned.
    ErrorReported,
    /// Application traffic ended: the peer closed (`clean`) or the
    /// connection failed mid-request.
    ServeEnded { clean: bool },
}

/// Mathematical view of [`ConnEvent`].
pub enum ConnEventView {
    HelloParsed { hello: ClientHelloInfoView },
    HelloRejected,
    Resolved { config: ServerConfigView },
    ResolveFailed,
    ConfigBuildFailed,
    HandshakeComplete { alpn: Option<Seq<u8>> },
    HandshakeFailed,
    ErrorReported,
    ServeEnded { clean: bool },
}

impl View for ConnEvent {
    type V = ConnEventView;

    open spec fn view(&self) -> ConnEventView {
        match self {
            ConnEvent::HelloParsed { hello } => ConnEventView::HelloParsed { hello: hello@ },
            ConnEvent::HelloRejected => ConnEventView::HelloRejected,
            ConnEvent::Resolved { config } => ConnEventView::Resolved { config: config@ },
            ConnEvent::ResolveFailed => ConnEventView::ResolveFailed,
            ConnEvent::ConfigBuildFailed => ConnEventView::ConfigBuildFailed,
            ConnEvent::HandshakeComplete { alpn } => ConnEventView::HandshakeComplete {
                alpn: match alpn {
                    Some(p) => Some(p@),
                    None => None,
                },
            },
            ConnEvent::HandshakeFailed => ConnEventView::HandshakeFailed,
            ConnEvent::ErrorReported => ConnEventView::ErrorReported,
            ConnEvent::ServeEnded { clean } => ConnEventView::ServeEnded { clean: *clean },
        }
    }
}

/// What the driver must do next for this connection.
#[derive(Clone, Copy, Debug, PartialEq, Eq, Structural)]
pub enum ConnAction {
    /// Hand the observed hello to the certificate resolver.
    InvokeResolver,
    /// Feed the resolved configuration into the deferred acceptor.
    CompleteHandshake,
    /// Write [`error_response_bytes`] on the still-unencrypted stream,
    /// swallowing any write failure, then report [`ConnEvent::ErrorReported`].
    SendErrorResponse,
    /// Drive application traffic over the encrypted stream.
    Serve,
    /// Drop the connection; its task ends.
    Close,
}

/// Mathematical view of a connection: its state, and how many times the
/// certificate resolver has been invoked on its behalf.
pub struct ConnectionView {
    pub state: ConnStateView,
    pub resolver_invocations: nat,
}

impl ConnectionView {
    /// The negotiated ALPN outcome, if any, was drawn from the
    /// configuration the resolver produced, and the resolver was consulted
    /// exactly once on the way to an encrypted stream, never afterwards.
    pub open spec fn wf(self) -> bool {
        &&& self.resolver_invocations <= 1
        &&& (self.state is Raw ==> self.resolver_invocations == 0)
        &&& (self.state is HelloObserved ==> self.resolver_invocations == 1)
        &&& (self.state is Configured ==> self.resolver_invocations == 1)
        &&& (self.state matches ConnStateView::Negotiated { config, alpn } ==> {
            &&& self.resolver_invocations == 1
            &&& alpn_acceptable(config, alpn)
        })
    }

    /// A fresh connection: raw, with the resolver not yet consulted.
    pub open spec fn initial() -> ConnectionView {
        ConnectionView { state: ConnStateView::Raw, resolver_invocations: 0 }
    }
}

/// An ALPN outcome the state machine accepts for `config`: either no
/// protocol was negotiated, or the negotiated protocol is one the
/// configuration advertises. (The TLS library selects the first protocol
/// the server configured that the client supports, so a sound outcome is
/// always a member of the advertised list.)
pub open spec fn alpn_acceptable(config: ServerConfigView, alpn: Option<Seq<u8>>) -> bool {
    match alpn {
        None => true,
        Some(p) => config.alpn_protocols.contains(p),
    }
}

/// The transition function of one connection: from a state and an observed
/// event to the next state and the action the driver must take.
pub open spec fn spec_step(c: ConnectionView, e: ConnEventView) -> (ConnectionView, ConnAction) {
    match (c.state, e) {
        (ConnStateView::Raw, ConnEventView::HelloParsed { hello }) => (
            ConnectionView {
                state: ConnStateView::HelloObserved { hello },
                resolver_invocations: c.resolver_invocations + 1,
            },
            ConnAction::InvokeResolver,
        ),
        (ConnStateView::Raw, ConnEventView::HelloRejected) => (
            ConnectionView { state: ConnStateView::Aborted, ..c },
            ConnAction::SendErrorResponse,
        ),
        (ConnStateView::HelloObserved { .. }, ConnEventView::Resolved { config }) => (
            ConnectionView { state: ConnStateView::Configured { config }, ..c },
            ConnAction::CompleteHandshake,
        ),
        (ConnStateView::HelloObserved { .. }, ConnEventView::ResolveFailed) => (
            ConnectionView { state: ConnStateView::Aborted, ..c },
            ConnAction::SendErrorResponse,
        ),
        (ConnStateView::Configured { .. }, ConnEventView::ConfigBuildFailed) => (
            ConnectionView { state: ConnStateView::Aborted, ..c },
            ConnAction::SendErrorResponse,
        ),
        (ConnStateView::Configured { config }, ConnEventView::HandshakeComplete { alpn }) => {
            if alpn_acceptable(config, alpn) {
                (
                    ConnectionView { state: ConnStateView::Negotiated { config, alpn }, ..c },
                    ConnAction::Serve,
                )
            } else {
                (ConnectionView { state: ConnStateView::Aborted, ..c }, ConnAction::Close)
            }
        },
        (ConnStateView::Configured { .. }, ConnEventView::HandshakeFailed) => (
            ConnectionView { state: ConnStateView::Aborted, ..c },
            ConnAction::Close,
        ),
        (ConnStateView::Negotiated { .. }, ConnEventView::ServeEnded { .. }) => (
            ConnectionView { state: ConnStateView::Closed, ..c },
            ConnAction::Close,
        ),
        (ConnStateView::Aborted, ConnEventView::ErrorReported) => (
            ConnectionView { state: ConnStateView::Closed, ..c },
            ConnAction::Close,
        ),
        _ => (ConnectionView { state: ConnStateView::Closed, ..c }, ConnAction::Close),
    }
}

/// One connection, owned by exactly one task for its entire life.
pub struct Connection {
    state: ConnState,
    resolver_invocations: Ghost<nat>,
}

impl View for Connection {
    type V = ConnectionView;

    closed spec fn view(&self) -> ConnectionView {
        ConnectionView {
            state: self.state@,
            resolver_invocations: self.resolver_invocations@,
        }
    }
}

impl Connection {
    /// A freshly accepted connection.
    pub fn new() -> (c: Connection)
        ensures
            c@ == ConnectionView::initial(),
    {
        Connection { state: ConnState::Raw, resolver_invocations: Ghost(0) }
    }

    /// The connection's current state, for the driver to inspect.
    pub fn state(&self) -> (s: &ConnState)
        ensures
            s@ == self@.state,
    {
        &self.state
    }

    /// Advances the connection by one observed event and returns what the
    /// driver must do next; the transition is exactly [`spec_step`].
    pub fn step(self, event: ConnEvent) -> (r: (Connection, ConnAction))
        ensures
            r.0@ == spec_step(self@, event@).0,
            r.1 == spec_step(self@, event@).1,
    {
        let ghost pre = self@;
        let ghost ev = event@;
        let Connection { state, resolver_invocations } = self;
        match (state, event) {
            (ConnState::Raw, ConnEvent::HelloParsed { hello }) => (
                Connection {
                    state: ConnState::HelloObserved { hello },
                    resolver_invocations: Ghost(resolver_invocations@ + 1),
                },
                ConnAction::InvokeResolver,
            ),
            (ConnState::Raw, ConnEvent::HelloRejected) => (
                Connection { state: ConnState::Aborted, resolver_invocations },
                ConnAction::SendErrorResponse,
            ),
            (ConnState::HelloObserved { .. }, ConnEvent::Resolved { config }) => (
                Connection { state: ConnState::Configured { config }, resolver_invocations },
                ConnAction::CompleteHandshake,
            ),
            (ConnState::HelloObserved { .. }, ConnEvent::ResolveFailed) => (
                Connection { state: ConnState::Aborted, resolver_invocations },
                ConnAction::SendErrorResponse,
            ),
            (ConnState::Configured { .. }, ConnEvent::ConfigBuildFailed) => (
                Connection { state: ConnState::Aborted, resolver_invocations },
                ConnAction::SendErrorResponse,
            ),
            (ConnState::Configured { config }, ConnEvent::HandshakeComplete { alpn }) => {
                let acceptable = match &alpn {
                    None => true,
                    Some(p) => contains_protocol(&config.alpn_protocols, p),
                };
                if acceptable {
                    (
                        Connection {
                            state: ConnState::Negotiated { config, alpn },
                            resolver_invocations,
                        },
                        ConnAction::Serve,
                    )
                } else {
                    (
                        Connection { state: ConnState::Aborted, resolver_invocations },
                        ConnAction::Close,
                    )
                }
            },
            (ConnState::Configured { .. }, ConnEvent::HandshakeFailed) => (
                Connection { state: ConnState::Aborted, resolver_invocations },
                ConnAction::Close,
            ),
            (ConnState::Negotiated { .. }, ConnEvent::ServeEnded { .. }) => (
                Connection { state: ConnState::Closed, resolver_invocations },
                ConnAction::Close,
            ),
            (ConnState::Aborted, ConnEvent::ErrorReported) => (
                Connection { state: ConnState::Closed, resolver_invocations },
                ConnAction::Close,
            ),
            (_, _) => (
                Connection { state: ConnState::Closed, resolver_invocations },
                ConnAction::Close,
            ),
        }
    }
}

/// Every step preserves well-formedness: in particular, a negotiated
/// connection has consulted the resolver exactly once and carries an ALPN
/// outcome drawn from its configuration.
pub proof fn lemma_step_preserves_wf(c: ConnectionView, e: ConnEventView)
    requires
        c.wf(),
    ensures
        spec_step(c, e).0.wf(),
{
}

/// The resolver is invoked only when the hello of a raw connection has
/// just been parsed — never after the handshake is configured, completed,
/// or failed — and each step invokes it at most once.
pub proof fn lemma_resolver_invoked_only_at_hello(c: ConnectionView, e: ConnEventView)
    ensures
        spec_step(c, e).1 == ConnAction::InvokeResolver <==> (c.state is Raw
            && e is HelloParsed),
        spec_step(c, e).0.resolver_invocations == if spec_step(c, e).1
            == ConnAction::InvokeResolver {
            c.resolver_invocations + 1
        } else {
            c.resolver_invocations
        },
{
}

/// A malformed TLS preamble is answered with exactly the plaintext bytes
/// of [`spec_error_response`] — `HTTP/1.1 400 Bad Request` followed by
/// three line breaks — and the connection is aborted; the listener's own
/// behaviour is untouched by it (see [`lemma_listener_always_continues`]
/// and [`lemma_connection_isolation`]).
pub proof fn lemma_malformed_hello_gets_error_response(c: ConnectionView)
    requires
        c.state is Raw,
    ensures
        spec_step(c, ConnEventView::HelloRejected).0.state is Aborted,
        spec_step(c, ConnEventView::HelloRejected).1 == ConnAction::SendErrorResponse,
{
}

/// The error reporter writes on the plaintext stream only while one still
/// exists: the action is issued before any encrypted stream does — on a
/// rejected preamble, a failed resolution, or resolved parameters the TLS
/// engine refused to build — and never once a handshake has consumed the
/// stream, succeeded, or failed.
pub proof fn lemma_error_report_only_before_encryption(c: ConnectionView, e: ConnEventView)
    ensures
        spec_step(c, e).1 == ConnAction::SendErrorResponse ==> (c.state is Raw
            || c.state is HelloObserved || (c.state is Configured && e is ConfigBuildFailed)),
        c.state is Configured && e is HandshakeFailed ==> spec_step(c, e).1 == ConnAction::Close,
{
}

// ---------------------------------------------------------------------------
// Whole-life properties of one connection
// ---------------------------------------------------------------------------

/// The connection reached by folding `events` over `c`.
pub open spec fn spec_run(c: ConnectionView, events: Seq<ConnEventView>) -> ConnectionView
    decreases events.len(),
{
    if events.len() == 0 {
        c
    } else {
        spec_run(spec_step(c, events.first()).0, events.drop_first())
    }
}

/// A run from a fresh connection stays well-formed.
pub proof fn lemma_run_preserves_wf(c: ConnectionView, events: Seq<ConnEventView>)
    requires
        c.wf(),
    ensures
        spec_run(c, events).wf(),
    decreases events.len(),
{
    if events.len() > 0 {
        lemma_step_preserves_wf(c, events.first());
        lemma_run_preserves_wf(spec_step(c, events.first()).0, events.drop_first());
    }
}

/// For every connection that reaches handshake completion, the certificate
/// resolver was invoked exactly once on its behalf — and, because the
/// invocation count only ever changes when a raw connection's hello is
/// parsed, that one invocation happened strictly before the handshake
/// completed.
pub proof fn lemma_resolver_invoked_once(events: Seq<ConnEventView>)
    ensures
        spec_run(ConnectionView::initial(), events).state is Negotiated ==> spec_run(
            ConnectionView::initial(),
            events,
        ).resolver_invocations == 1,
{
    lemma_run_preserves_wf(ConnectionView::initial(), events);
}

/// Round trip from resolver output to negotiated connection: completing a
/// handshake with the configuration a resolver produced yields a connection
/// whose presented certificate chain, key and ALPN advertisement are those
/// of that very configuration, byte for byte, and whose negotiated protocol
/// was drawn from the configuration's ALPN list.
pub proof fn lemma_handshake_round_trip(
    hello: ClientHelloInfoView,
    config: ServerConfigView,
    alpn: Option<Seq<u8>>,
)
    requires
        alpn_acceptable(config, alpn),
    ensures
        ({
            let end = spec_run(
                ConnectionView::initial(),
                seq![
                    ConnEventView::HelloParsed { hello },
                    ConnEventView::Resolved { config },
                    ConnEventView::HandshakeComplete { alpn },
                ],
            );
            &&& end.state == (ConnStateView::Negotiated { config, alpn })
            &&& end.resolver_invocations == 1
        }),
{
    let events = seq![
        ConnEventView::HelloParsed { hello },
        ConnEventView::Resolved { config },
        ConnEventView::HandshakeComplete { alpn },
    ];
    let c0 = ConnectionView::initial();
    let c1 = spec_step(c0, events[0]).0;
    let c2 = spec_step(c1, events[1]).0;
    let c3 = spec_step(c2, events[2]).0;
    let tail1 = seq![events[1], events[2]];
    let tail2 = seq![events[2]];
    assert(events.drop_first() =~= tail1);
    assert(tail1.drop_first() =~= tail2);
    assert(tail2.drop_first() =~= Seq::<ConnEventView>::empty());
    assert(spec_run(c0, events) == spec_run(c1, tail1));
    assert(spec_run(c1, tail1) == spec_run(c2, tail2));
    assert(spec_run(c2, tail2) == spec_run(c3, Seq::<ConnEventView>::empty()));
    assert(spec_run(c0, events) == c3);
}

// ---------------------------------------------------------------------------
// Independence of concurrent connections
// ---------------------------------------------------------------------------
//
// Every accepted connection runs in its own task, and no connection object
// is shared across tasks. A collection of live connections is modelled as a
// map from task identifier to connection; an event is always observed by,
// and applied to, exactly one of them.

/// One event applied to the connection `id` within a collection of live
/// connections. Identifiers not in the map are untouched.
pub open spec fn spec_dispatch(
    conns: Map<nat, ConnectionView>,
    id: nat,
    e: ConnEventView,
) -> Map<nat, ConnectionView> {
    if conns.dom().contains(id) {
        conns.insert(id, spec_step(conns[id], e).0)
    } else {
        conns
    }
}

/// A step of one connection leaves every sibling connection — and the set
/// of live connections — exactly as it was: a failure, a reset, or any
/// other event on one connection cannot disturb another.
pub proof fn lemma_connection_isolation(
    conns: Map<nat, ConnectionView>,
    id: nat,
    e: ConnEventView,
    other: nat,
)
    requires
        other != id,
    ensures
        spec_dispatch(conns, id, e).dom() == conns.dom(),
        conns.dom().contains(other) ==> spec_dispatch(conns, id, e)[other] == conns[other],
{
    if conns.dom().contains(id) {
        assert(spec_dispatch(conns, id, e).dom() =~= conns.dom());
    }
}

/// Steps of two distinct connections commute: the outcome of two
/// concurrently progressing connections does not depend on the order in
/// which their events were observed.
pub proof fn lemma_dispatch_commutes(
    conns: Map<nat, ConnectionView>,
    id1: nat,
    e1: ConnEventView,
    id2: nat,
    e2: ConnEventView,
)
    requires
        id1 != id2,
    ensures
        spec_dispatch(spec_dispatch(conns, id1, e1), id2, e2) == spec_dispatch(
            spec_dispatch(conns, id2, e2),
            id1,
            e1,
        ),
{
    let left = spec_dispatch(spec_dispatch(conns, id1, e1), id2, e2);
    let right = spec_dispatch(spec_dispatch(conns, id2, e2), id1, e1);
    assert(left =~= right);
}

// ---------------------------------------------------------------------------
// Certificate resolvers
// ---------------------------------------------------------------------------

/// Why certificate resolution failed.
#[derive(Clone, Copy, Debug, PartialEq, Eq, Structural)]
pub enum ResolverError {
    /// The certificate chain could not be parsed from PEM, or was empty.
    CertificateParse,
    /// The private key could not be parsed from PEM.
    PrivateKeyParse,
}

/// The DER certificates held in a PEM document, in order, or nothing if
/// the document cannot be decoded.
pub uninterp spec fn pem_certificates_of(pem: Seq<u8>) -> Option<Seq<Seq<u8>>>;

/// The DER private key held in a PEM document, or nothing if the document
/// holds no decodable key.
pub uninterp spec fn pem_private_key_of(pem: Seq<u8>) -> Option<Seq<u8>>;

/// Relies on `rustls_pki_types::CertificateDer::pem_slice_iter`: decodes
/// every CERTIFICATE section of a PEM document into DER bytes, in order;
/// the result is a function of the input bytes alone.
#[verifier::external_body]
fn parse_pem_certificates(pem: &[u8]) -> (r: Option<Vec<Vec<u8>>>)
    ensures
        r matches Some(v) ==> pem_certificates_of(pem@) == Some(v@.map_values(|c: Vec<u8>| c@)),
        r is None ==> pem_certificates_of(pem@) is None,
{
    let mut certs: Vec<Vec<u8>> = Vec::new();
    for cert in CertificateDer::pem_slice_iter(pem) {
        match cert {
            Ok(c) => certs.push(c.as_ref().to_vec()),
            Err(_) => return None,
        }
    }
    Some(certs)
}

/// Relies on `rustls_pki_types::PrivateKeyDer::from_pem_slice`: decodes the
/// first private-key section of a PEM document into DER bytes; the result
/// is a function of the input bytes alone.
#[verifier::external_body]
fn parse_pem_private_key(pem: &[u8]) -> (r: Option<Vec<u8>>)
    ensures
        r matches Some(v) ==> pem_private_key_of(pem@) == Some(v@),
        r is None ==> pem_private_key_of(pem@) is None,
{
    match PrivateKeyDer::from_pem_slice(pem) {
        Ok(k) => Some(k.secret_der().to_vec()),
        Err(_) => None,
    }
}

/// The ALPN protocol identifier `h2`.
pub open spec fn spec_alpn_h2() -> Seq<u8> {
    seq![104u8, 50u8]
}

/// The ALPN protocol identifier `http/1.1`.
pub open spec fn spec_alpn_http11() -> Seq<u8> {
    seq![104u8, 116u8, 116u8, 112u8, 47u8, 49u8, 46u8, 49u8]
}

/// The ALPN list the default strategy advertises: `h2`, then `http/1.1`.
pub open spec fn spec_default_alpn() -> Seq<Seq<u8>> {
    seq![spec_alpn_h2(), spec_alpn_http11()]
}

/// The advertised ALPN list of the default strategy: `["h2", "http/1.1"]`.
pub fn default_alpn_protocols() -> (r: Vec<Vec<u8>>)
    ensures
        r@.map_values(|p: Vec<u8>| p@) == spec_default_alpn(),
{
    let mut h2: Vec<u8> = Vec::new();
    h2.push(104);
    h2.push(50);
    let mut http11: Vec<u8> = Vec::new();
    http11.push(104);
    http11.push(116);
    http11.push(116);
    http11.push(112);
    http11.push(47);
    http11.push(49);
    http11.push(46);
    http11.push(49);
    proof {
        assert(h2@ =~= spec_alpn_h2());
        assert(http11@ =~= spec_alpn_http11());
    }
    let mut r: Vec<Vec<u8>> = Vec::new();
    r.push(h2);
    r.push(http11);
    proof {
        assert(r@.map_values(|p: Vec<u8>| p@) =~= spec_default_alpn());
    }
    r
}

/// Copy of a byte vector.
fn copy_bytes(v: &Vec<u8>) -> (r: Vec<u8>)
    ensures
        r@ == v@,
{
    slice_to_vec(v.as_slice())
}

impl ServerConfig {
    /// A copy with identical bytes. The configuration is immutable once
    /// built; a copy lets one resolver hand the same parameters to any
    /// number of concurrent handshakes.
    pub fn duplicate(&self) -> (r: ServerConfig)
        ensures
            r@ == self@,
    {
        let mut cert_chain: Vec<Vec<u8>> = Vec::new();
        let n = self.cert_chain.len();
        let mut i: usize = 0;
        while i < n
            invariant
                n == self.cert_chain@.len(),
                0 <= i <= n,
                cert_chain@.len() == i,
                forall|j: int| 0 <= j < i ==> cert_chain@[j]@ == self.cert_chain@[j]@,
            decreases n - i,
        {
            cert_chain.push(copy_bytes(&self.cert_chain[i]));
            i = i + 1;
        }
        let mut alpn_protocols: Vec<Vec<u8>> = Vec::new();
        let m = self.alpn_protocols.len();
        let mut k: usize = 0;
        while k < m
            invariant
                m == self.alpn_protocols@.len(),
                0 <= k <= m,
                alpn_protocols@.len() == k,
                forall|j: int| 0 <= j < k ==> alpn_protocols@[j]@ == self.alpn_protocols@[j]@,
            decreases m - k,
        {
            alpn_protocols.push(copy_bytes(&self.alpn_protocols[k]));
            k = k + 1;
        }
        let r = ServerConfig {
            cert_chain,
            key_der: copy_bytes(&self.key_der),
            alpn_protocols,
        };
        proof {
            assert(r@.cert_chain =~= self@.cert_chain);
            assert(r@.alpn_protocols =~= self@.alpn_protocols);
            assert(r@ =~= self@);
        }
        r
    }
}

impl ClientHelloInfo {
    /// A copy with identical contents: the driver hands one to the state
    /// machine and keeps one for the resolver.
    pub fn duplicate(&self) -> (r: ClientHelloInfo)
        ensures
            r@ == self@,
    {
        let server_name = match &self.server_name {
            Some(s) => Some(s.clone()),
            None => None,
        };
        let mut alpn_offers: Vec<Vec<u8>> = Vec::new();
        let n = self.alpn_offers.len();
        let mut i: usize = 0;
        while i < n
            invariant
                n == self.alpn_offers@.len(),
                0 <= i <= n,
                alpn_offers@.len() == i,
                forall|j: int| 0 <= j < i ==> alpn_offers@[j]@ == self.alpn_offers@[j]@,
            decreases n - i,
        {
            alpn_offers.push(copy_bytes(&self.alpn_offers[i]));
            i = i + 1;
        }
        let r = ClientHelloInfo { server_name, alpn_offers };
        proof {
            assert(r@.alpn_offers =~= self@.alpn_offers);
            assert(r@ =~= self@);
        }
        r
    }
}

/// The pluggable capability that maps connection-time TLS information to
/// concrete server credentials. Shared read-only by all concurrently
/// running connection tasks; a strategy that performs a per-hostname
/// lookup implements this same interface.
pub trait CertificateResolver {
    /// Produce TLS server parameters for this hello. May be called
    /// concurrently for unrelated connections.
    fn resolve(&self, client_hello: &ClientHelloInfo) -> (r: Result<ServerConfig, ResolverError>)
        ensures
            r matches Ok(c) ==> c@.wf(),
    ;
}

/// The default, static strategy: parameters are built once from one
/// certificate/key pair, and every hello — whatever its server name —
/// receives the same configuration, with ALPN fixed to `h2`, `http/1.1`.
///
/// It is *insecure* only in the sense that it presents its one
/// certificate regardless of the requested hostname.
pub struct InsecureCertificateResolver {
    config: ServerConfig,
}

impl InsecureCertificateResolver {
    /// The parameters this resolver presents, identically, to every hello.
    pub closed spec fn spec_config(&self) -> ServerConfigView {
        self.config@
    }

    #[verifier::type_invariant]
    spec fn type_inv(self) -> bool {
        &&& self.config@.wf()
        &&& self.config@.alpn_protocols == spec_default_alpn()
    }

    /// The configuration this resolver presents: well-formed, and
    /// advertising exactly `h2` and `http/1.1`.
    pub fn config(&self) -> (c: &ServerConfig)
        ensures
            c@ == self.spec_config(),
            c@.wf(),
            c@.alpn_protocols == spec_default_alpn(),
    {
        proof {
            use_type_invariant(self);
        }
        &self.config
    }

    /// Builds the static resolver from a PEM certificate chain and a PEM
    /// private key, read once at construction; the configuration
    /// advertises exactly `h2` and `http/1.1`.
    pub fn new(cert_pem: &[u8], key_pem: &[u8]) -> (r: Result<
        InsecureCertificateResolver,
        ResolverError,
    >)
        ensures
            r matches Ok(res) ==> {
                &&& pem_certificates_of(cert_pem@) == Some(res.spec_config().cert_chain)
                &&& pem_private_key_of(key_pem@) == Some(res.spec_config().key_der)
                &&& res.spec_config().alpn_protocols == spec_default_alpn()
                &&& res.spec_config().wf()
            },
            r == Err::<InsecureCertificateResolver, ResolverError>(ResolverError::CertificateParse)
                <==> (pem_certificates_of(cert_pem@) is None || (pem_certificates_of(cert_pem@)
                matches Some(cs) && cs.len() == 0)),
            r == Err::<InsecureCertificateResolver, ResolverError>(ResolverError::PrivateKeyParse)
                <==> ((pem_certificates_of(cert_pem@) matches Some(cs) && cs.len() > 0)
                && pem_private_key_of(key_pem@) is None),
    {
        let cert_chain = match parse_pem_certificates(cert_pem) {
            Some(c) => c,
            None => {
                return Err(ResolverError::CertificateParse);
            },
        };
        if cert_chain.len() == 0 {
            return Err(ResolverError::CertificateParse);
        }
        let key_der = match parse_pem_private_key(key_pem) {
            Some(k) => k,
            None => {
                return Err(ResolverError::PrivateKeyParse);
            },
        };
        let config = ServerConfig { cert_chain, key_der, alpn_protocols: default_alpn_protocols() };
        Ok(InsecureCertificateResolver { config })
    }
}

impl CertificateResolver for InsecureCertificateResolver {
    /// The static strategy never fails and ignores the hello: every call,
    /// on every connection, returns byte-identical parameters.
    fn resolve(&self, _client_hello: &ClientHelloInfo) -> (r: Result<ServerConfig, ResolverError>)
        ensures
            r matches Ok(c) ==> c@.wf(),
            r matches Ok(c) && c@ == self.spec_config(),
    {
        proof {
            use_type_invariant(self);
        }
        Ok(self.config.duplicate())
    }
}

/// Against a static resolver bound to one certificate/key pair, every
/// negotiated connection that was configured with the resolver's
/// parameters presents that pair's certificate chain, byte-identically,
/// and its ALPN outcome, when present, is `h2` or `http/1.1`.
pub proof fn lemma_static_resolution_uniform(
    resolver_config: ServerConfigView,
    c: ConnectionView,
)
    requires
        c.wf(),
        resolver_config.alpn_protocols == spec_default_alpn(),
        c.state matches ConnStateView::Negotiated { config, .. } && config == resolver_config,
    ensures
        c.state matches ConnStateView::Negotiated { config, alpn } ==> {
            &&& config.cert_chain == resolver_config.cert_chain
            &&& (alpn matches Some(p) ==> p == spec_alpn_h2() || p == spec_alpn_http11())
        },
{
    if let ConnStateView::Negotiated { config, alpn } = c.state {
        if let Some(p) = alpn {
            assert(config.alpn_protocols.contains(p));
            let i = choose|i: int|
                0 <= i < config.alpn_protocols.len() && config.alpn_protocols[i] == p;
            assert(i == 0 || i == 1);
        }
    }
}

/// Two concurrent connections, one with a valid ClientHello and one with a
/// malformed preamble, are resolved independently, in either interleaving:
/// the malformed one is aborted and told to receive the plaintext error
/// response, while the valid one completes its handshake and is served.
pub proof fn lemma_independent_resolution(
    conns: Map<nat, ConnectionView>,
    good: nat,
    bad: nat,
    hello: ClientHelloInfoView,
    config: ServerConfigView,
    alpn: Option<Seq<u8>>,
)
    requires
        good != bad,
        conns.dom().contains(good),
        conns.dom().contains(bad),
        conns[good] == ConnectionView::initial(),
        conns[bad] == ConnectionView::initial(),
        alpn_acceptable(config, alpn),
    ensures
        ({
            let after = spec_dispatch(
                spec_dispatch(
                    spec_dispatch(
                        spec_dispatch(conns, good, ConnEventView::HelloParsed { hello }),
                        bad,
                        ConnEventView::HelloRejected,
                    ),
                    good,
                    ConnEventView::Resolved { config },
                ),
                good,
                ConnEventView::HandshakeComplete { alpn },
            );
            &&& after[good].state == (ConnStateView::Negotiated { config, alpn })
            &&& after[bad].state is Aborted
            &&& spec_step(conns[bad], ConnEventView::HelloRejected).1
                == ConnAction::SendErrorResponse
        }),
{
}

} // verus!
