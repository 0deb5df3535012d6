//! From the text of an address to the host to connect to and the line to send.

use crate::error::ErrorView;
use crate::error::GeminiClientError;
use vstd::prelude::*;
use vstd::string::*;

verus! {

/// `rustls::pki_types::ServerName`: the name a TLS session is opened for.
#[verifier::external_type_specification]
#[verifier::external_body]
pub struct ExServerName<'a>(rustls::pki_types::ServerName<'a>);

/// What the `url` crate reads in an address: the host, where it names one,
/// and the path.
pub struct UrlParts {
    pub host: Option<String>,
    pub path: String,
}

impl View for UrlParts {
    type V = (Option<Seq<char>>, Seq<char>);

    open spec fn view(&self) -> (Option<Seq<char>>, Seq<char>) {
        (
            match self.host {
                Some(host) => Some(host@),
                None => None,
            },
            self.path@,
        )
    }
}

/// What `url::Url::parse` makes of `input`: the `host_str()` and the
/// `path()` of the URL, or `None` where it refuses `input` as a URL.
pub uninterp spec fn parsed_url(input: Seq<char>) -> Option<(Option<Seq<char>>, Seq<char>)>;

/// What `ServerName::try_from` of `rustls` makes of `host`: the name of a
/// server, where `host` is a DNS name or an IP address, and `None` where it
/// is neither.
pub uninterp spec fn server_name_of(host: Seq<char>) -> Option<
    rustls::pki_types::ServerName<'static>,
>;

/// Parses `input` with `url::Url::parse` and reads the result's
/// `host_str()` and `path()`. The outcome depends on the text alone, so it
/// is the one that `parsed_url` names; the error is the parser's own.
#[verifier::external_body]
fn parse_url(input: &str) -> (parsed: Result<UrlParts, url::ParseError>)
    ensures
        match parsed {
            Ok(parts) => parsed_url(input@) == Some(parts@),
            Err(_) => parsed_url(input@) is None,
        },
{
    let url = url::Url::parse(input)?;
    Ok(UrlParts { host: url.host_str().map(str::to_owned), path: url.path().to_owned() })
}

/// Makes a server name of `host` with `ServerName::try_from`. The outcome
/// depends on the text alone, so it is the one that `server_name_of`
/// names.
#[verifier::external_body]
fn server_name(host: String) -> (name: Result<
    rustls::pki_types::ServerName<'static>,
    rustls::pki_types::InvalidDnsNameError,
>)
    ensures
        match name {
            Ok(n) => server_name_of(host@) == Some(n),
            Err(_) => server_name_of(host@) is None,
        },
{
    rustls::pki_types::ServerName::try_from(host)
}

/// The prefix of every request line.
pub open spec fn protocol() -> Seq<char> {
    "gemini://"@
}

/// The end of every request line.
pub open spec fn line_end() -> Seq<char> {
    "\r\n"@
}

/// What follows the host in a socket address: the port of the protocol.
pub open spec fn port_suffix() -> Seq<char> {
    ":1965"@
}

/// `path` as sent: itself where it starts at the root, else with the root
/// put before it, so that an address without a path asks for `/`.
pub open spec fn rooted(path: Seq<char>) -> Seq<char> {
    if path.len() > 0 && path[0] == '/' {
        path
    } else {
        seq!['/'] + path
    }
}

/// The request line for `path` on `host`.
pub open spec fn request_line(host: Seq<char>, path: Seq<char>) -> Seq<char> {
    protocol() + host + rooted(path) + line_end()
}

/// Every request line is the protocol prefix, the host, a path that begins
/// with `/` and, as its last two characters, a carriage return and a line
/// feed.
pub proof fn lemma_request_line_shape(host: Seq<char>, path: Seq<char>)
    ensures
        ({
            let line = request_line(host, path);
            let n = line.len() as int;
            let p = 9 + host.len() as int;
            &&& n == 9 + host.len() + rooted(path).len() + 2
            &&& line.subrange(0, 9) == protocol()
            &&& line.subrange(9, p) == host
            &&& line.subrange(p, n - 2) == rooted(path)
            &&& line[p] == '/'
            &&& line[n - 2] == '\r'
            &&& line[n - 1] == '\n'
            &&& rooted(path).len() >= 1
            &&& path.len() == 0 ==> rooted(path) == seq!['/']
            &&& path.len() > 0 && path[0] == '/' ==> rooted(path) == path
        }),
{
    reveal_strlit("gemini://");
    reveal_strlit("\r\n");
    let line = request_line(host, path);
    let n = line.len() as int;
    let p = 9 + host.len() as int;
    assert(line.subrange(0, 9) =~= protocol());
    assert(line.subrange(9, p) =~= host);
    assert(line.subrange(p, n - 2) =~= rooted(path));
    assert(path.len() == 0 ==> rooted(path) =~= seq!['/']);
}

/// Whether `text` holds neither a carriage return nor a line feed.
pub open spec fn on_one_line(text: Seq<char>) -> bool {
    forall|i: int| 0 <= i < text.len() ==> text[i] != '\r' && text[i] != '\n'
}

/// Where neither the host nor the path holds a carriage return or a line
/// feed, the request line is one line: it holds none before the two
/// characters that end it.
pub proof fn lemma_request_line_is_one_line(host: Seq<char>, path: Seq<char>)
    requires
        on_one_line(host),
        on_one_line(path),
    ensures
        on_one_line(request_line(host, path).take(request_line(host, path).len() - 2)),
{
    reveal_strlit("gemini://");
    reveal_strlit("\r\n");
    let line = request_line(host, path);
    let body = line.take(line.len() - 2);
    assert(body =~= protocol() + host + rooted(path));
    assert forall|i: int| 0 <= i < body.len() implies body[i] != '\r' && body[i] != '\n' by {
        if i < 9 {
            assert(body[i] == protocol()[i]);
        } else if i < 9 + host.len() {
            assert(body[i] == host[i - 9]);
        } else {
            let j = i - 9 - host.len();
            assert(body[i] == rooted(path)[j]);
            if path.len() > 0 && path[0] == '/' {
                assert(rooted(path)[j] == path[j]);
            } else if j > 0 {
                assert(rooted(path)[j] == path[j - 1]);
            }
        }
    }
}

/// The mathematical content of an [`Address`].
pub struct AddressView {
    pub host: Seq<char>,
    pub path: Seq<char>,
}

/// Where a request goes: a host, which every address has, and a path.
pub struct Address {
    pub host: String,
    pub path: String,
}

impl View for Address {
    type V = AddressView;

    open spec fn view(&self) -> AddressView {
        AddressView { host: self.host@, path: self.path@ }
    }
}

/// What the transport needs to open a connection.
pub struct Target {
    /// The name the TLS session is opened for.
    pub server_name: rustls::pki_types::ServerName<'static>,
    /// The host and port of the socket, as `host:1965`.
    pub socket_address: String,
}

/// The mathematical content of a [`Target`].
pub struct TargetView {
    pub server_name: rustls::pki_types::ServerName<'static>,
    pub socket_address: Seq<char>,
}

impl View for Target {
    type V = TargetView;

    open spec fn view(&self) -> TargetView {
        TargetView { server_name: self.server_name, socket_address: self.socket_address@ }
    }
}

/// The target for `host`: the server name that `rustls` makes of it and
/// the socket address `host:1965`, or `None` where `host` names no server.
pub open spec fn target_of(host: Seq<char>) -> Option<TargetView> {
    match server_name_of(host) {
        Some(server_name) => Some(TargetView { server_name, socket_address: host + port_suffix() }),
        None => None,
    }
}

/// The address in what the URL parser made of a text: its host and path,
/// where it is a URL and names a host.
pub open spec fn address_in(parsed: Option<(Option<Seq<char>>, Seq<char>)>) -> Option<
    AddressView,
> {
    match parsed {
        Some((Some(host), path)) => Some(AddressView { host, path }),
        _ => None,
    }
}

impl Address {
    /// Takes what the URL parser made of an address: the parser's error is
    /// passed on, a URL without a host is refused, and any other gives
    /// its host and path.
    pub fn from_parts(parsed: Result<UrlParts, url::ParseError>) -> (address: Result<
        Address,
        GeminiClientError,
    >)
        ensures
            match parsed {
                Err(e) => address matches Err(GeminiClientError::UrlParseError(same)) && same == e,
                Ok(parts) => match address_in(Some(parts@)) {
                    Some(read) => address matches Ok(a) && a@ == read,
                    None => address matches Err(GeminiClientError::NoHostError),
                },
            },
    {
        match parsed {
            Err(e) => Err(GeminiClientError::UrlParseError(e)),
            Ok(parts) => match parts.host {
                None => Err(GeminiClientError::NoHostError),
                Some(host) => Ok(Address { host, path: parts.path }),
            },
        }
    }

    /// Reads an address from the text that the user typed.
    pub fn parse(url: &str) -> (address: Result<Address, GeminiClientError>)
        ensures
            match address {
                Ok(a) => address_in(parsed_url(url@)) == Some(a@),
                Err(e) => address_in(parsed_url(url@)) is None && e@ == if parsed_url(url@) is None {
                    ErrorView::UrlParseError
                } else {
                    ErrorView::NoHostError
                },
            },
    {
        Address::from_parts(parse_url(url))
    }

    /// The line that asks for this address.
    pub fn request_line(&self) -> (line: String)
        ensures
            line@ == request_line(self.host@, self.path@),
    {
        let mut line = String::from_str("gemini://");
        line.append(self.host.as_str());
        let path = self.path.as_str();
        if path.unicode_len() == 0 || path.get_char(0) != '/' {
            line.append("/");
            proof {
                reveal_strlit("/");
                assert("/"@ =~= seq!['/']);
            }
        }
        line.append(path);
        line.append("\r\n");
        assert(line@ =~= request_line(self.host@, self.path@));
        line
    }

    /// The host and port to open a socket to.
    pub fn socket_address(&self) -> (socket: String)
        ensures
            socket@ == self.host@ + port_suffix(),
    {
        let mut socket = self.host.clone();
        socket.append(":1965");
        socket
    }

    /// Takes what `rustls` made of the host: a host that it does not take
    /// as a server name is refused, and any other gives the target.
    pub fn target_from(
        &self,
        name: Result<rustls::pki_types::ServerName<'static>, rustls::pki_types::InvalidDnsNameError>,
    ) -> (target: Result<Target, GeminiClientError>)
        ensures
            match name {
                Err(e) => target matches Err(GeminiClientError::ConvertError(same)) && same == e,
                Ok(n) => target matches Ok(t) && t.server_name == n && t.socket_address@
                    == self.host@ + port_suffix(),
            },
    {
        match name {
            Err(e) => Err(GeminiClientError::ConvertError(e)),
            Ok(server_name) => Ok(Target { server_name, socket_address: self.socket_address() }),
        }
    }

    /// What the transport needs to reach this address.
    pub fn target(&self) -> (target: Result<Target, GeminiClientError>)
        ensures
            match target {
                Ok(t) => target_of(self.host@) == Some(t@),
                Err(e) => target_of(self.host@) is None && e@ == ErrorView::ConvertError,
            },
    {
        self.target_from(server_name(self.host.clone()))
    }
}

} // verus!
