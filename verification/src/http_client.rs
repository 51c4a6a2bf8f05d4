use vstd::prelude::*;
use vstd::string::*;
use vstd::utf8::{decode_utf8, encode_utf8, valid_utf8};

verus! {

/// Why a request produced no usable body.
#[derive(Clone, Debug, PartialEq, Eq)]
pub enum HttpError {
    /// No response arrived within the configured duration.
    Timeout,
    /// The secure channel could not be set up.
    TlsError,
    /// A header name or value is malformed.
    RequestError,
    /// The connection or the protocol failed.
    TransportError,
    /// The body is not text.
    ResponseError,
    /// The server answered with a 4xx status; the body is kept.
    ClientError(String),
    /// The server answered with a 5xx status; the body is kept.
    ServerError(String),
}

/// `HttpError` with its bodies as character sequences.
pub enum HttpErrorView {
    Timeout,
    TlsError,
    RequestError,
    TransportError,
    ResponseError,
    ClientError(Seq<char>),
    ServerError(Seq<char>),
}

impl View for HttpError {
    type V = HttpErrorView;

    open spec fn view(&self) -> HttpErrorView {
        match self {
            HttpError::Timeout => HttpErrorView::Timeout,
            HttpError::TlsError => HttpErrorView::TlsError,
            HttpError::RequestError => HttpErrorView::RequestError,
            HttpError::TransportError => HttpErrorView::TransportError,
            HttpError::ResponseError => HttpErrorView::ResponseError,
            HttpError::ClientError(body) => HttpErrorView::ClientError(body@),
            HttpError::ServerError(body) => HttpErrorView::ServerError(body@),
        }
    }
}

/// A GET request that is ready to be sent: where to, with which headers,
/// and how many seconds to wait for the answer. The headers are set in
/// their order, so where a name stands twice the later entry is the one
/// that is sent.
#[derive(Debug, PartialEq, Eq)]
pub struct HttpRequest {
    pub uri: String,
    pub headers: Vec<(String, String)>,
    pub timeout_secs: u64,
}

/// `HttpRequest` with its strings as character sequences.
pub struct HttpRequestView {
    pub uri: Seq<char>,
    pub headers: Seq<(Seq<char>, Seq<char>)>,
    pub timeout_secs: u64,
}

/// The names and values of a header list as character sequences.
pub open spec fn header_texts(headers: Seq<(String, String)>) -> Seq<(Seq<char>, Seq<char>)> {
    Seq::new(headers.len(), |i: int| (headers[i].0@, headers[i].1@))
}

impl View for HttpRequest {
    type V = HttpRequestView;

    open spec fn view(&self) -> HttpRequestView {
        HttpRequestView {
            uri: self.uri@,
            headers: header_texts(self.headers@),
            timeout_secs: self.timeout_secs,
        }
    }
}

/// What became of a request that was sent.
#[derive(Debug)]
pub enum HttpOutcome {
    /// Nothing came back within the request's timeout.
    TimedOut,
    /// The secure channel could not be set up.
    TlsFailed,
    /// The connection or the protocol failed.
    Failed,
    /// The server answered with this status and these body bytes.
    Answered { status: u16, body: Vec<u8> },
}

/// Whether `hyper::Request::get` takes a text for a URI.
pub uninterp spec fn uri_accepted(uri: Seq<char>) -> bool;

/// Whether `hyper::header::HeaderName` takes a text for a header name.
pub uninterp spec fn header_name_accepted(name: Seq<char>) -> bool;

/// Whether a byte may stand in a header value: a tab, or anything from the
/// space upwards but the delete character.
pub open spec fn header_value_byte(byte: u8) -> bool {
    byte >= 32 && byte != 127 || byte == 9
}

/// Whether every byte of a text may stand in a header value.
pub open spec fn header_value_accepted(value: Seq<char>) -> bool {
    forall|i: int|
        0 <= i < encode_utf8(value).len() ==> header_value_byte(#[trigger] encode_utf8(value)[i])
}

/// Whether every header of a list has an accepted name and an accepted
/// value.
pub open spec fn headers_accepted(headers: Seq<(Seq<char>, Seq<char>)>) -> bool {
    forall|i: int|
        0 <= i < headers.len() ==> header_name_accepted((#[trigger] headers[i]).0)
            && header_value_accepted(headers[i].1)
}

/// Builds a GET request for `uri` with `hyper::Request::get` and an empty
/// body, and reports whether hyper took the URI. The answer is a function
/// of the text alone.
#[verifier::external_body]
fn uri_is_valid(uri: &str) -> (valid: bool)
    ensures
        valid == uri_accepted(uri@),
{
    hyper::Request::get(uri).body(()).is_ok()
}

/// Parses a header name with `hyper::header::HeaderName::from_str` and
/// reports whether hyper took it. The answer is a function of the text
/// alone.
#[verifier::external_body]
fn header_name_is_valid(name: &str) -> (valid: bool)
    ensures
        valid == header_name_accepted(name@),
{
    name.parse::<hyper::header::HeaderName>().is_ok()
}

/// Parses a header value with `hyper::header::HeaderValue::from_str` and
/// reports whether hyper took it: it does so exactly where every byte of
/// the text is a tab or at least 32 and not 127.
#[verifier::external_body]
fn header_value_is_valid(value: &str) -> (valid: bool)
    ensures
        valid == header_value_accepted(value@),
{
    hyper::header::HeaderValue::from_str(value).is_ok()
}

/// Decodes bytes with `String::from_utf8`: the text that the bytes encode
/// where they are valid UTF-8, and `None` where they are not.
#[verifier::external_body]
fn text_from_utf8(bytes: Vec<u8>) -> (text: Option<String>)
    ensures
        match text {
            Some(decoded) => valid_utf8(bytes@) && decoded@ == decode_utf8(bytes@),
            None => !valid_utf8(bytes@),
        },
{
    String::from_utf8(bytes).ok()
}

/// Whether a status is one of the 4xx.
pub open spec fn is_client_error(status: u16) -> bool {
    400 <= status < 500
}

/// Whether a status is one of the 5xx.
pub open spec fn is_server_error(status: u16) -> bool {
    500 <= status < 600
}

/// What a caller gets for an outcome: the body as text on success, and
/// otherwise the error that classifies the failure. A body that is not
/// text is a `ResponseError` whatever the status.
pub open spec fn outcome_text(outcome: HttpOutcome) -> Result<Seq<char>, HttpErrorView> {
    match outcome {
        HttpOutcome::TimedOut => Err(HttpErrorView::Timeout),
        HttpOutcome::TlsFailed => Err(HttpErrorView::TlsError),
        HttpOutcome::Failed => Err(HttpErrorView::TransportError),
        HttpOutcome::Answered { status, body } => if !valid_utf8(body@) {
            Err(HttpErrorView::ResponseError)
        } else if is_client_error(status) {
            Err(HttpErrorView::ClientError(decode_utf8(body@)))
        } else if is_server_error(status) {
            Err(HttpErrorView::ServerError(decode_utf8(body@)))
        } else {
            Ok(decode_utf8(body@))
        },
    }
}

/// The view of a result of `String` or `HttpError`.
pub open spec fn text_result(result: Result<String, HttpError>) -> Result<Seq<char>, HttpErrorView> {
    match result {
        Ok(text) => Ok(text@),
        Err(error) => Err(error@),
    }
}

/// What `request_get_with_headers` makes of its arguments: a
/// `TransportError` for a URI that is not accepted, else a `RequestError`
/// for a header that is not accepted, else the request.
pub open spec fn prepared_request(
    uri: Seq<char>,
    headers: Seq<(Seq<char>, Seq<char>)>,
    timeout_secs: u64,
) -> Result<HttpRequestView, HttpErrorView> {
    if !uri_accepted(uri) {
        Err(HttpErrorView::TransportError)
    } else if !headers_accepted(headers) {
        Err(HttpErrorView::RequestError)
    } else {
        Ok(HttpRequestView { uri, headers, timeout_secs })
    }
}

/// The view of a result of `HttpRequest` or `HttpError`.
pub open spec fn request_result(result: Result<HttpRequest, HttpError>) -> Result<
    HttpRequestView,
    HttpErrorView,
> {
    match result {
        Ok(request) => Ok(request@),
        Err(error) => Err(error@),
    }
}

/// The client's side of a GET exchange without the wire: it prepares
/// requests and classifies what came back. Sending is the caller's part.
#[derive(Debug)]
pub struct HttpClient {
    timeout: u64,
}

impl HttpClient {
    /// The number of seconds that this client waits for a response.
    pub closed spec fn timeout_secs(&self) -> u64 {
        self.timeout
    }

    /// A client that waits `timeout` seconds for each response.
    pub fn new(timeout: u64) -> (client: HttpClient)
        ensures
            client.timeout_secs() == timeout,
    {
        HttpClient { timeout }
    }

    /// Changes the number of seconds to wait for each response.
    pub fn set_timeout(&mut self, timeout: u64)
        ensures
            final(self).timeout_secs() == timeout,
    {
        self.timeout = timeout;
    }

    /// The number of seconds that this client waits for a response.
    pub fn timeout(&self) -> (seconds: u64)
        ensures
            seconds == self.timeout_secs(),
    {
        self.timeout
    }

    /// Checks a header list entry by entry: `RequestError` where one name
    /// or one value is malformed, whichever entry it is.
    pub fn set_headers(&self, headers: &Vec<(String, String)>) -> (checked: Result<(), HttpError>)
        ensures
            match checked {
                Ok(_) => headers_accepted(header_texts(headers@)),
                Err(error) => error@ == HttpErrorView::RequestError && !headers_accepted(
                    header_texts(headers@),
                ),
            },
    {
        let mut i: usize = 0;
        while i < headers.len()
            invariant
                i <= headers.len(),
                forall|j: int|
                    0 <= j < i ==> header_name_accepted((#[trigger] header_texts(headers@)[j]).0)
                        && header_value_accepted(header_texts(headers@)[j].1),
            decreases headers.len() - i,
        {
            assert(header_texts(headers@)[i as int] == (headers@[i as int].0@, headers@[i as int].1@));
            if !header_name_is_valid(headers[i].0.as_str()) {
                return Err(HttpError::RequestError);
            }
            if !header_value_is_valid(headers[i].1.as_str()) {
                return Err(HttpError::RequestError);
            }
            i = i + 1;
        }
        Ok(())
    }

    /// Prepares a GET request without headers.
    pub fn request_get(&self, uri: String) -> (request: Result<HttpRequest, HttpError>)
        ensures
            request_result(request) == prepared_request(
                uri@,
                Seq::<(Seq<char>, Seq<char>)>::empty(),
                self.timeout_secs(),
            ),
    {
        let headers: Vec<(String, String)> = Vec::new();
        assert(header_texts(headers@) =~= Seq::<(Seq<char>, Seq<char>)>::empty());
        self.request_get_with_headers(uri, headers)
    }

    /// Prepares a GET request with headers. One malformed header refuses
    /// the whole request, before anything is sent.
    pub fn request_get_with_headers(&self, uri: String, headers: Vec<(String, String)>) -> (request:
        Result<HttpRequest, HttpError>)
        ensures
            request_result(request) == prepared_request(
                uri@,
                header_texts(headers@),
                self.timeout_secs(),
            ),
    {
        if !uri_is_valid(uri.as_str()) {
            return Err(HttpError::TransportError);
        }
        match self.set_headers(&headers) {
            Ok(_) => Ok(HttpRequest { uri, headers, timeout_secs: self.timeout }),
            Err(error) => Err(error),
        }
    }

    /// Classifies what became of a request: the body as text, or the error
    /// that says what went wrong. A request that timed out is a `Timeout`
    /// and nothing else.
    pub fn parse_response(&self, outcome: HttpOutcome) -> (response: Result<String, HttpError>)
        ensures
            text_result(response) == outcome_text(outcome),
            outcome is TimedOut ==> response is Err && response->Err_0@ == HttpErrorView::Timeout,
    {
        match outcome {
            HttpOutcome::TimedOut => Err(HttpError::Timeout),
            HttpOutcome::TlsFailed => Err(HttpError::TlsError),
            HttpOutcome::Failed => Err(HttpError::TransportError),
            HttpOutcome::Answered { status, body } => {
                match text_from_utf8(body) {
                    None => Err(HttpError::ResponseError),
                    Some(text) => {
                        if 400 <= status && status < 500 {
                            Err(HttpError::ClientError(text))
                        } else if 500 <= status && status < 600 {
                            Err(HttpError::ServerError(text))
                        } else {
                            Ok(text)
                        }
                    },
                }
            },
        }
    }
}

} // verus!
