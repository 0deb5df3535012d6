//! What can go wrong in one request.

use vstd::prelude::*;
use vstd::string::*;

verus! {

/// `url::ParseError`: why the `url` crate refused an address.
#[verifier::external_type_specification]
#[verifier::external_body]
pub struct ExUrlParseError(url::ParseError);

/// `rustls::pki_types::InvalidDnsNameError`: a host that is neither a DNS
/// name nor an IP address.
#[verifier::external_type_specification]
#[verifier::external_body]
pub struct ExInvalidDnsNameError(rustls::pki_types::InvalidDnsNameError);

/// `rustls::Error`: a failure of the TLS layer.
#[verifier::external_type_specification]
#[verifier::external_body]
pub struct ExRustlsError(rustls::Error);

/// `std::io::Error`: a failure of the socket.
#[verifier::external_type_specification]
#[verifier::external_body]
pub struct ExIoError(std::io::Error);

/// `std::string::FromUtf8Error`: bytes that are not UTF-8.
#[verifier::external_type_specification]
#[verifier::external_body]
pub struct ExFromUtf8Error(std::string::FromUtf8Error);

/// Why a request did not end in a body.
#[derive(Debug)]
pub enum GeminiClientError {
    /// The client was handed an event that its state does not expect.
    UnexpectedError,
    /// The address names no host.
    NoHostError,
    /// The server answered with a status class that asks for input, a
    /// redirect or a client certificate.
    UnsupportedStatusError,
    /// The server offers a body that is not text; the MIME type is given.
    UnsupportedMimeError(String),
    /// The server reported a failure; its message is given as sent.
    RequestError(String),
    /// The response header is not a status, a space and a meta line.
    MalformedResponseError,
    /// The host is neither a DNS name nor an IP address.
    ConvertError(rustls::pki_types::InvalidDnsNameError),
    /// The socket failed.
    IoError(std::io::Error),
    /// The TLS layer failed.
    RustlsError(rustls::Error),
    /// The address is no URL.
    UrlParseError(url::ParseError),
    /// The body is not UTF-8.
    Utf8Error(std::string::FromUtf8Error),
}

/// A [`GeminiClientError`] as contracts speak of it: the kind of error, with
/// its text where it carries one. What another library reported is not
/// part of it.
pub enum ErrorView {
    UnexpectedError,
    NoHostError,
    UnsupportedStatusError,
    UnsupportedMimeError(Seq<char>),
    RequestError(Seq<char>),
    MalformedResponseError,
    ConvertError,
    IoError,
    RustlsError,
    UrlParseError,
    Utf8Error,
}

impl View for GeminiClientError {
    type V = ErrorView;

    open spec fn view(&self) -> ErrorView {
        match self {
            GeminiClientError::UnexpectedError => ErrorView::UnexpectedError,
            GeminiClientError::NoHostError => ErrorView::NoHostError,
            GeminiClientError::UnsupportedStatusError => ErrorView::UnsupportedStatusError,
            GeminiClientError::UnsupportedMimeError(mime) => ErrorView::UnsupportedMimeError(mime@),
            GeminiClientError::RequestError(meta) => ErrorView::RequestError(meta@),
            GeminiClientError::MalformedResponseError => ErrorView::MalformedResponseError,
            GeminiClientError::ConvertError(_) => ErrorView::ConvertError,
            GeminiClientError::IoError(_) => ErrorView::IoError,
            GeminiClientError::RustlsError(_) => ErrorView::RustlsError,
            GeminiClientError::UrlParseError(_) => ErrorView::UrlParseError,
            GeminiClientError::Utf8Error(_) => ErrorView::Utf8Error,
        }
    }
}

impl ErrorView {
    /// The fixed words of the message: all of it where the error carries
    /// nothing, else what stands before the detail.
    pub open spec fn lead(self) -> Seq<char> {
        match self {
            ErrorView::UnexpectedError => "Something unexpected happened"@,
            ErrorView::NoHostError => "URL does not contain a host"@,
            ErrorView::UnsupportedStatusError => "Request status is not supported"@,
            ErrorView::UnsupportedMimeError(_) => "MIME type "@,
            ErrorView::RequestError(_) => "An error happened while performing the request: "@,
            ErrorView::MalformedResponseError => "Response header is malformed"@,
            ErrorView::ConvertError => "The host provided is invalid: "@,
            ErrorView::IoError => "Could not open the TCP connection: "@,
            ErrorView::RustlsError => "Could not create the client configuration: "@,
            ErrorView::UrlParseError => "Url could not be parsed: "@,
            ErrorView::Utf8Error => "UTF-8 string could not be parsed: "@,
        }
    }

    /// Whether `text` is the message of this error. Where the error wraps
    /// one of another library, the message is the lead and then that
    /// library's own wording, of which nothing is said here.
    pub open spec fn worded(self, text: Seq<char>) -> bool {
        match self {
            ErrorView::UnsupportedMimeError(mime) => text == self.lead() + mime
                + " is not supported"@,
            ErrorView::RequestError(meta) => text == self.lead() + meta,
            ErrorView::ConvertError
            | ErrorView::IoError
            | ErrorView::RustlsError
            | ErrorView::UrlParseError
            | ErrorView::Utf8Error => self.lead().is_prefix_of(text),
            _ => text == self.lead(),
        }
    }
}

impl GeminiClientError {
    /// The message shown to the user.
    pub fn message(&self) -> (text: String)
        ensures
            self@.worded(text@),
    {
        match self {
            GeminiClientError::UnexpectedError => String::from_str(
                "Something unexpected happened",
            ),
            GeminiClientError::NoHostError => String::from_str("URL does not contain a host"),
            GeminiClientError::UnsupportedStatusError => String::from_str(
                "Request status is not supported",
            ),
            GeminiClientError::UnsupportedMimeError(mime) => {
                let mut text = String::from_str("MIME type ");
                text.append(mime.as_str());
                text.append(" is not supported");
                text
            },
            GeminiClientError::RequestError(meta) => {
                let mut text = String::from_str(
                    "An error happened while performing the request: ",
                );
                text.append(meta.as_str());
                text
            },
            GeminiClientError::MalformedResponseError => String::from_str(
                "Response header is malformed",
            ),
            GeminiClientError::ConvertError(e) => {
                let mut text = String::from_str("The host provided is invalid: ");
                let detail = e.to_string();
                text.append(detail.as_str());
                text
            },
            GeminiClientError::IoError(e) => {
                let mut text = String::from_str("Could not open the TCP connection: ");
                let detail = e.to_string();
                text.append(detail.as_str());
                text
            },
            GeminiClientError::RustlsError(e) => {
                let mut text = String::from_str("Could not create the client configuration: ");
                let detail = e.to_string();
                text.append(detail.as_str());
                text
            },
            GeminiClientError::UrlParseError(e) => {
                let mut text = String::from_str("Url could not be parsed: ");
                let detail = e.to_string();
                text.append(detail.as_str());
                text
            },
            GeminiClientError::Utf8Error(e) => {
                let mut text = String::from_str("UTF-8 string could not be parsed: ");
                let detail = e.to_string();
                text.append(detail.as_str());
                text
            },
        }
    }
}

} // verus!
