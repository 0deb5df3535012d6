use dioscuri::error::GeminiClientError;

#[test]
fn plain_errors_have_fixed_messages() {
    assert_eq!(GeminiClientError::UnexpectedError.message(), "Something unexpected happened");
    assert_eq!(GeminiClientError::NoHostError.message(), "URL does not contain a host");
    assert_eq!(
        GeminiClientError::UnsupportedStatusError.message(),
        "Request status is not supported"
    );
    assert_eq!(
        GeminiClientError::MalformedResponseError.message(),
        "Response header is malformed"
    );
}

#[test]
fn errors_with_a_text_show_it() {
    assert_eq!(
        GeminiClientError::UnsupportedMimeError("image/png".to_string()).message(),
        "MIME type image/png is not supported"
    );
    assert_eq!(
        GeminiClientError::RequestError("not found".to_string()).message(),
        "An error happened while performing the request: not found"
    );
    assert_eq!(
        GeminiClientError::RequestError(String::new()).message(),
        "An error happened while performing the request: "
    );
}

#[test]
fn errors_of_other_libraries_are_worded_by_them() {
    let url = GeminiClientError::UrlParseError(url::ParseError::RelativeUrlWithoutBase);
    assert_eq!(url.message(), "Url could not be parsed: relative URL without a base");
    let host = GeminiClientError::ConvertError(rustls::pki_types::InvalidDnsNameError);
    assert_eq!(host.message(), "The host provided is invalid: invalid dns name");
    let io = std::io::Error::new(std::io::ErrorKind::Other, "no route");
    assert_eq!(
        GeminiClientError::IoError(io).message(),
        "Could not open the TCP connection: no route"
    );
    let tls = rustls::Error::General("boom".to_string());
    let shown = GeminiClientError::RustlsError(tls).message();
    assert!(shown.starts_with("Could not create the client configuration: "));
    assert!(shown.ends_with("boom"));
    let utf8 = String::from_utf8(vec![0xff]).unwrap_err();
    let expected = format!("UTF-8 string could not be parsed: {}", utf8);
    assert_eq!(GeminiClientError::Utf8Error(utf8).message(), expected);
}
