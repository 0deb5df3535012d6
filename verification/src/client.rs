//! One request and its response, as steps between which the transport works.
//!
//! The client never touches a socket. [`GeminiClient::request`] and
//! [`GeminiClient::resume`] say what the transport is to do next, and the
//! transport reports back what came of it.

use crate::address::address_in;
use crate::address::target_of;
use crate::address::parsed_url;
use crate::address::request_line;
use crate::address::Address;
use crate::address::AddressView;
use crate::address::Target;
use crate::address::TargetView;
use crate::error::ErrorView;
use crate::error::GeminiClientError;
use crate::header::decode_body;
use crate::header::line_refusal;
use crate::header::meta_of;
use crate::header::mime_of;
use crate::header::read_header;
use crate::header::status_of;
use crate::header::text_prefix;
use crate::header::well_formed;
use vstd::prelude::*;
use vstd::utf8::*;

verus! {

/// What the transport is asked to do.
pub enum ClientAction {
    /// Open a socket to the target and a TLS session over it, then report
    /// `Connected` or `Failed`.
    Connect(Target),
    /// Write this line to the connection and read the response up to and
    /// with its first line feed, then report `Header` or `Failed`.
    Send(String),
    /// Read the connection to its end, then report `Body` or `Failed`.
    ReadBody,
    /// Nothing more: the request has ended, in a body or in an error.
    Finish(Result<String, GeminiClientError>),
}

/// What the transport reports.
pub enum ClientEvent {
    /// The connection stands.
    Connected,
    /// The first line of the response.
    Header(Vec<u8>),
    /// All that followed the first line.
    Body(Vec<u8>),
    /// The socket or the TLS layer failed.
    Failed(GeminiClientError),
}

/// A [`ClientAction`] as contracts speak of it.
pub enum ActionView {
    Connect(TargetView),
    Send(Seq<char>),
    ReadBody,
    Finish(Result<Seq<char>, ErrorView>),
}

/// A [`ClientEvent`] as contracts speak of it.
pub enum EventView {
    Connected,
    Header(Seq<u8>),
    Body(Seq<u8>),
    Failed(ErrorView),
}

impl View for ClientAction {
    type V = ActionView;

    open spec fn view(&self) -> ActionView {
        match self {
            ClientAction::Connect(target) => ActionView::Connect(target@),
            ClientAction::Send(line) => ActionView::Send(line@),
            ClientAction::ReadBody => ActionView::ReadBody,
            ClientAction::Finish(Ok(body)) => ActionView::Finish(Ok(body@)),
            ClientAction::Finish(Err(e)) => ActionView::Finish(Err(e@)),
        }
    }
}

impl View for ClientEvent {
    type V = EventView;

    open spec fn view(&self) -> EventView {
        match self {
            ClientEvent::Connected => EventView::Connected,
            ClientEvent::Header(line) => EventView::Header(line@),
            ClientEvent::Body(bytes) => EventView::Body(bytes@),
            ClientEvent::Failed(e) => EventView::Failed(e@),
        }
    }
}

/// How far a request has come.
pub enum PhaseView {
    /// No request is under way.
    Idle,
    /// The transport is opening a connection to this address.
    Connecting(AddressView),
    /// The request line is sent, or being sent.
    AwaitingHeader,
    /// The header promised text, which the transport is reading.
    AwaitingBody,
}

/// The mathematical state of a [`GeminiClient`].
pub struct ClientView {
    /// The address of the connection that the client holds, if it holds one.
    pub connection: Option<AddressView>,
    pub phase: PhaseView,
}

impl ClientView {
    /// The same connection, with no request under way.
    pub open spec fn idle(self) -> ClientView {
        ClientView { connection: self.connection, phase: PhaseView::Idle }
    }
}

/// The state and the action after a request for `url`, whatever the state
/// before: the connection held so far is given up, and a URL with a host
/// that names a server asks for a connection to `host:1965`, under the
/// server name made of that host.
pub open spec fn requested(url: Seq<char>) -> (ClientView, ActionView) {
    let halted = ClientView { connection: None, phase: PhaseView::Idle };
    match address_in(parsed_url(url)) {
        None => (
            halted,
            ActionView::Finish(
                Err(
                    if parsed_url(url) is None {
                        ErrorView::UrlParseError
                    } else {
                        ErrorView::NoHostError
                    },
                ),
            ),
        ),
        Some(address) => match target_of(address.host) {
            Some(target) => (
                ClientView { connection: None, phase: PhaseView::Connecting(address) },
                ActionView::Connect(target),
            ),
            None => (halted, ActionView::Finish(Err(ErrorView::ConvertError))),
        },
    }
}

/// The state and the action after `event` in `state`.
///
/// A connection that stands is kept and the request line is sent. A header
/// either promises text, and then the body is read, or ends the request in
/// an error. A body ends it in text or in `Utf8Error`. A failure of the
/// transport ends it in that failure. An event that the phase does not
/// expect ends it in `UnexpectedError`.
pub open spec fn resumed(state: ClientView, event: EventView) -> (ClientView, ActionView) {
    match (state.phase, event) {
        (PhaseView::Connecting(address), EventView::Connected) => (
            ClientView { connection: Some(address), phase: PhaseView::AwaitingHeader },
            ActionView::Send(request_line(address.host, address.path)),
        ),
        (PhaseView::AwaitingHeader, EventView::Header(line)) => match line_refusal(line) {
            None => (
                ClientView { connection: state.connection, phase: PhaseView::AwaitingBody },
                ActionView::ReadBody,
            ),
            Some(e) => (state.idle(), ActionView::Finish(Err(e))),
        },
        (PhaseView::AwaitingBody, EventView::Body(bytes)) => (
            state.idle(),
            ActionView::Finish(
                if valid_utf8(bytes) {
                    Ok(decode_utf8(bytes))
                } else {
                    Err(ErrorView::Utf8Error)
                },
            ),
        ),
        (PhaseView::Connecting(_), EventView::Failed(e))
        | (PhaseView::AwaitingHeader, EventView::Failed(e))
        | (PhaseView::AwaitingBody, EventView::Failed(e)) => (
            state.idle(),
            ActionView::Finish(Err(e)),
        ),
        _ => (state.idle(), ActionView::Finish(Err(ErrorView::UnexpectedError))),
    }
}

/// A success whose MIME type is not text ends the request in
/// `UnsupportedMimeError`: the client never asks for its body.
pub proof fn lemma_other_mime_never_reads_body(state: ClientView, line: Seq<u8>)
    requires
        state.phase is AwaitingHeader,
        valid_utf8(line),
        well_formed(decode_utf8(line)),
        status_of(decode_utf8(line)) == 2,
        !text_prefix().is_prefix_of(mime_of(meta_of(decode_utf8(line)))),
    ensures
        resumed(state, EventView::Header(line)) == (
            state.idle(),
            ActionView::Finish(
                Err(ErrorView::UnsupportedMimeError(mime_of(meta_of(decode_utf8(line))))),
            ),
        ),
{
}

/// The body is asked for only after a header that is a success and offers
/// text, and the request line is sent only over a connection that stands.
pub proof fn lemma_actions_in_order(state: ClientView, event: EventView)
    ensures
        resumed(state, event).1 is ReadBody ==> state.phase is AwaitingHeader && event is Header
            && line_refusal(event->Header_0) is None,
        resumed(state, event).1 is Send ==> state.phase is Connecting && event is Connected,
        !(resumed(state, event).1 is Connect),
        resumed(state, event).1 is Finish <==> resumed(state, event).0.phase is Idle,
{
}

/// The connection that a client holds: the address it was opened for.
pub struct GeminiClientConnection {
    url: Address,
}

impl View for GeminiClientConnection {
    type V = AddressView;

    closed spec fn view(&self) -> AddressView {
        self.url@
    }
}

impl GeminiClientConnection {
    /// The address that the connection was opened for.
    pub fn url(&self) -> (url: &Address)
        ensures
            url@ == self@,
    {
        &self.url
    }
}

enum Phase {
    Idle,
    Connecting(Address),
    AwaitingHeader,
    AwaitingBody,
}

/// The protocol side of a Gemini client: it holds at most one connection
/// and carries one request at a time.
pub struct GeminiClient {
    connection: Option<GeminiClientConnection>,
    phase: Phase,
}

impl View for GeminiClient {
    type V = ClientView;

    closed spec fn view(&self) -> ClientView {
        ClientView {
            connection: match self.connection {
                Some(connection) => Some(connection@),
                None => None,
            },
            phase: match self.phase {
                Phase::Idle => PhaseView::Idle,
                Phase::Connecting(address) => PhaseView::Connecting(address@),
                Phase::AwaitingHeader => PhaseView::AwaitingHeader,
                Phase::AwaitingBody => PhaseView::AwaitingBody,
            },
        }
    }
}

impl GeminiClient {
    /// A client that holds no connection and carries no request.
    pub fn new() -> (client: GeminiClient)
        ensures
            client@ == (ClientView { connection: None, phase: PhaseView::Idle }),
    {
        GeminiClient { connection: None, phase: Phase::Idle }
    }

    /// The connection that the client holds.
    pub fn connection(&self) -> (connection: Option<&GeminiClientConnection>)
        ensures
            match connection {
                Some(c) => self@.connection == Some(c@),
                None => self@.connection is None,
            },
    {
        self.connection.as_ref()
    }

    /// Whether a request is under way.
    pub fn is_busy(&self) -> (busy: bool)
        ensures
            busy == !(self@.phase is Idle),
    {
        match self.phase {
            Phase::Idle => false,
            _ => true,
        }
    }

    /// Begins a request for `url`. The connection held so far is given up,
    /// and with it any request that was under way.
    pub fn request(&mut self, url: &str) -> (action: ClientAction)
        ensures
            (final(self)@, action@) == requested(url@),
    {
        self.connection = None;
        self.phase = Phase::Idle;
        let address = match Address::parse(url) {
            Ok(address) => address,
            Err(e) => {
                return ClientAction::Finish(Err(e));
            },
        };
        match address.target() {
            Ok(target) => {
                self.phase = Phase::Connecting(address);
                ClientAction::Connect(target)
            },
            Err(e) => ClientAction::Finish(Err(e)),
        }
    }

    /// Takes what the transport reports and says what it is to do next. A
    /// failure that ends a request is handed back as it came.
    pub fn resume(&mut self, event: ClientEvent) -> (action: ClientAction)
        ensures
            (final(self)@, action@) == resumed(old(self)@, event@),
            event matches ClientEvent::Failed(e) ==> old(self)@.phase is Idle || action
                == ClientAction::Finish(Err(e)),
    {
        let mut phase = Phase::Idle;
        core::mem::swap(&mut self.phase, &mut phase);
        match (phase, event) {
            (Phase::Connecting(address), ClientEvent::Connected) => {
                let line = address.request_line();
                self.connection = Some(GeminiClientConnection { url: address });
                self.phase = Phase::AwaitingHeader;
                ClientAction::Send(line)
            },
            (Phase::AwaitingHeader, ClientEvent::Header(line)) => match read_header(line) {
                Ok(_) => {
                    self.phase = Phase::AwaitingBody;
                    ClientAction::ReadBody
                },
                Err(e) => ClientAction::Finish(Err(e)),
            },
            (Phase::AwaitingBody, ClientEvent::Body(bytes)) => ClientAction::Finish(
                decode_body(bytes),
            ),
            (Phase::Connecting(_), ClientEvent::Failed(e))
            | (Phase::AwaitingHeader, ClientEvent::Failed(e))
            | (Phase::AwaitingBody, ClientEvent::Failed(e)) => ClientAction::Finish(Err(e)),
            _ => ClientAction::Finish(Err(GeminiClientError::UnexpectedError)),
        }
    }
}

impl Default for GeminiClient {
    fn default() -> (client: GeminiClient)
        ensures
            client@ == (ClientView { connection: None, phase: PhaseView::Idle }),
    {
        GeminiClient::new()
    }
}

} // verus!
