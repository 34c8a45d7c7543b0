//! The failures of the client, and how they are classified.

use vstd::prelude::*;
use vstd::std_specs::convert::FromSpecImpl;
use crate::decode::{optional_string, optional_text, required_string, required_text};
use crate::json::{json_parse, parser_message, Json, JsonValue};
use vstd::string::StringExecFns;
use crate::text::{chars_of, decimal_digits, decimal_text, parse_u64, parsed_u64, text_is};
use crate::types::opt_text;

verus! {

/// The status of a response that asks the client to slow down.
pub const TOO_MANY_REQUESTS: u16 = 429;

/// A failure to write or read JSON, kept as its message.
#[derive(Debug, Clone)]
pub struct SerdeError(String);

impl View for SerdeError {
    type V = Seq<char>;

    closed spec fn view(&self) -> Seq<char> {
        self.0@
    }
}

impl SerdeError {
    /// An error with the given message.
    pub fn new(message: String) -> (r: Self)
        ensures
            r@ == message@,
    {
        SerdeError(message)
    }

    /// The message.
    pub fn message(&self) -> (r: &String)
        ensures
            r@ == self@,
    {
        &self.0
    }

    /// The error in words.
    pub fn to_string(&self) -> (r: String)
        ensures
            r@ == "JSON serialization error: "@ + self@,
    {
        "JSON serialization error: ".to_owned().concat(self.0.as_str())
    }
}

impl From<serde_json::Error> for SerdeError {
    fn from(err: serde_json::Error) -> (r: SerdeError) {
        SerdeError(parser_message(&err))
    }
}

impl FromSpecImpl<serde_json::Error> for SerdeError {
    open spec fn obeys_from_spec() -> bool {
        false
    }

    open spec fn from_spec(err: serde_json::Error) -> SerdeError {
        arbitrary()
    }
}

/// A failure of the connection, kept as its message.
#[derive(Debug, Clone)]
pub struct TransportError(String);

impl View for TransportError {
    type V = Seq<char>;

    closed spec fn view(&self) -> Seq<char> {
        self.0@
    }
}

impl TransportError {
    /// An error with the given message.
    pub fn new(message: String) -> (r: Self)
        ensures
            r@ == message@,
    {
        TransportError(message)
    }

    /// The message.
    pub fn message(&self) -> (r: &String)
        ensures
            r@ == self@,
    {
        &self.0
    }

    /// The error in words.
    pub fn to_string(&self) -> (r: String)
        ensures
            r@ == "HTTP transport error: "@ + self@,
    {
        "HTTP transport error: ".to_owned().concat(self.0.as_str())
    }
}

/// `reqwest::Error`, the HTTP client's account of a failed request. Nothing
/// is known of what it holds.
#[verifier::external_type_specification]
#[verifier::external_body]
pub struct ExReqwestError(reqwest::Error);

/// The words of an error of the HTTP client, by its `to_string`. Nothing is
/// known of them.
#[verifier::external_body]
fn connection_message(err: &reqwest::Error) -> String {
    err.to_string()
}

impl From<reqwest::Error> for TransportError {
    fn from(err: reqwest::Error) -> (r: TransportError) {
        TransportError(connection_message(&err))
    }
}

impl FromSpecImpl<reqwest::Error> for TransportError {
    open spec fn obeys_from_spec() -> bool {
        false
    }

    open spec fn from_spec(err: reqwest::Error) -> TransportError {
        arbitrary()
    }
}

/// `url::ParseError`, the reason why a text is no URL.
#[verifier::external_type_specification]
#[verifier::external_body]
pub struct ExUrlParseError(url::ParseError);

/// The words of a URL error, by its `to_string`. Nothing is known of them.
#[verifier::external_body]
fn url_message(err: &url::ParseError) -> String {
    err.to_string()
}

/// What the server says about a request it refused.
#[derive(Debug, Clone)]
pub struct GroqApiErrorDetails {
    /// The message for a person.
    pub message: String,
    /// The kind of error, for a program.
    pub error_type: Option<String>,
    /// A further code, if the server gave one.
    pub code: Option<String>,
    /// The parameter at fault, if the server named one.
    pub param: Option<String>,
}

pub ghost struct GroqApiErrorDetailsView {
    pub message: Seq<char>,
    pub error_type: Option<Seq<char>>,
    pub code: Option<Seq<char>>,
    pub param: Option<Seq<char>>,
}

impl View for GroqApiErrorDetails {
    type V = GroqApiErrorDetailsView;

    open spec fn view(&self) -> GroqApiErrorDetailsView {
        GroqApiErrorDetailsView {
            message: self.message@,
            error_type: opt_text(self.error_type),
            code: opt_text(self.code),
            param: opt_text(self.param),
        }
    }
}

/// The details that an `error` member holds: an object with the string
/// `message` and the optional strings `type`, `code` and `param`.
pub open spec fn details_of(v: JsonValue) -> Option<GroqApiErrorDetailsView> {
    if !(v is Object) {
        None
    } else {
        match (
            required_text(v, "message"@),
            optional_text(v, "type"@),
            optional_text(v, "code"@),
            optional_text(v, "param"@),
        ) {
            (Some(message), Some(error_type), Some(code), Some(param)) => Some(
                GroqApiErrorDetailsView { message, error_type, code, param },
            ),
            _ => None,
        }
    }
}

/// The details of an error response whose body is `body` and, read as JSON,
/// `document`: those of the document's `error` member where there is one that
/// can be read, else the whole body as the message.
pub open spec fn details_from(body: Seq<char>, document: Option<JsonValue>) -> GroqApiErrorDetailsView {
    let plain = GroqApiErrorDetailsView { message: body, error_type: None, code: None, param: None };
    match document {
        Some(doc) => match doc.member("error"@) {
            Some(e) => match details_of(e) {
                Some(details) => details,
                None => plain,
            },
            None => plain,
        },
        None => plain,
    }
}

/// The value of the first header called `name`.
pub open spec fn header_value(headers: Seq<(Seq<char>, Seq<char>)>, name: Seq<char>) -> Option<
    Seq<char>,
>
    decreases headers.len(),
{
    if headers.len() == 0 {
        None
    } else if headers[0].0 == name {
        Some(headers[0].1)
    } else {
        header_value(headers.drop_first(), name)
    }
}

/// The headers as pairs of texts.
pub open spec fn headers_view(headers: Seq<(String, String)>) -> Seq<(Seq<char>, Seq<char>)> {
    headers.map_values(|h: (String, String)| (h.0@, h.1@))
}

/// `seconds` in milliseconds, or the largest number where that does not fit.
pub open spec fn seconds_to_millis(seconds: u64) -> u64 {
    if seconds * 1000 <= u64::MAX {
        (seconds * 1000) as u64
    } else {
        u64::MAX
    }
}

/// The wait, in milliseconds, that the `retry-after` header asks for: its
/// first value, where that is a whole number of seconds.
pub open spec fn retry_after_of(headers: Seq<(Seq<char>, Seq<char>)>) -> Option<u64> {
    match header_value(headers, "retry-after"@) {
        Some(value) => match parsed_u64(value) {
            Some(seconds) => Some(seconds_to_millis(seconds)),
            None => None,
        },
        None => None,
    }
}

impl GroqApiErrorDetails {
    /// Reads the details out of an `error` member.
    pub fn decode(v: &Json) -> (r: Option<Self>)
        ensures
            match r {
                Some(d) => details_of(v@) == Some(d@),
                None => details_of(v@) is None,
            },
    {
        if !v.is_object() {
            return None;
        }
        let message = match required_string(v, "message") {
            Some(s) => s,
            None => { return None; },
        };
        let error_type = match optional_string(v, "type") {
            Some(s) => s,
            None => { return None; },
        };
        let code = match optional_string(v, "code") {
            Some(s) => s,
            None => { return None; },
        };
        let param = match optional_string(v, "param") {
            Some(s) => s,
            None => { return None; },
        };
        Some(GroqApiErrorDetails { message, error_type, code, param })
    }

    /// The details of an error response, given its body and what the body
    /// holds as JSON, if it is JSON.
    pub fn from_document(body: String, document: Option<&Json>) -> (r: Self)
        ensures
            r@ == details_from(
                body@,
                match document {
                    Some(doc) => Some(doc@),
                    None => None,
                },
            ),
    {
        let found = match document {
            Some(doc) => match doc.get("error") {
                Some(e) => GroqApiErrorDetails::decode(e),
                None => None,
            },
            None => None,
        };
        match found {
            Some(details) => details,
            None => GroqApiErrorDetails { message: body, error_type: None, code: None, param: None },
        }
    }
}

/// An error response of the server.
#[derive(Debug, Clone)]
pub struct GroqApiError {
    /// The HTTP status of the response.
    pub status: u16,
    /// What the body says.
    pub error: GroqApiErrorDetails,
    /// The wait that the server asks for, in milliseconds.
    pub retry_after: Option<u64>,
    /// The identifier that the server gave the request, if it gave one.
    pub request_id: Option<String>,
}

/// The first value that `headers` hold under `name`. Names are compared as
/// they stand: an HTTP header map stores them in lower case.
pub fn find_header<'a>(headers: &'a Vec<(String, String)>, name: &str) -> (r: Option<&'a String>)
    ensures
        opt_text_ref(r) == header_value(headers_view(headers@), name@),
{
    let ghost all = headers_view(headers@);
    let mut i: usize = 0;
    assert(all.skip(0) =~= all);
    while i < headers.len()
        invariant
            i <= headers.len(),
            all == headers_view(headers@),
            header_value(all, name@) == header_value(all.skip(i as int), name@),
        decreases headers.len() - i,
    {
        assert(all.skip(i as int).drop_first() =~= all.skip(i + 1));
        assert(all.skip(i as int)[0] == (headers@[i as int].0@, headers@[i as int].1@));
        if text_is(&headers[i].0, name) {
            return Some(&headers[i].1);
        }
        i += 1;
    }
    None
}

/// The text behind an optional reference to a string.
pub open spec fn opt_text_ref(s: Option<&String>) -> Option<Seq<char>> {
    match s {
        Some(t) => Some(t@),
        None => None,
    }
}

/// The wait, in milliseconds, that the `retry-after` header asks for.
pub fn retry_after_millis(headers: &Vec<(String, String)>) -> (r: Option<u64>)
    ensures
        r == retry_after_of(headers_view(headers@)),
{
    match find_header(headers, "retry-after") {
        Some(value) => match parse_u64(value.as_str()) {
            Some(seconds) => if seconds <= u64::MAX / 1000 {
                Some(seconds * 1000)
            } else {
                Some(u64::MAX)
            },
            None => None,
        },
        None => None,
    }
}

impl GroqApiError {
    /// The error that a response with this status, body and headers stands
    /// for. Header names are expected in lower case.
    pub fn from_response(status: u16, body: String, headers: &Vec<(String, String)>) -> (r: Self)
        ensures
            r.status == status,
            r.error@ == details_from(body@, json_parse(body@)),
            r.retry_after == retry_after_of(headers_view(headers@)),
            opt_text(r.request_id) == header_value(headers_view(headers@), "x-request-id"@),
    {
        let retry_after = retry_after_millis(headers);
        let request_id = match find_header(headers, "x-request-id") {
            Some(id) => Some(id.clone()),
            None => None,
        };
        let text = chars_of(body.as_str());
        let document = Json::parse(&text);
        let error = match &document {
            Some(doc) => GroqApiErrorDetails::from_document(body, Some(doc)),
            None => GroqApiErrorDetails::from_document(body, None),
        };
        GroqApiError { status, error, retry_after, request_id }
    }
}

/// An error response in words: the status in decimal, then the message.
pub open spec fn api_error_text(err: GroqApiError) -> Seq<char> {
    "Groq API error ("@ + decimal_digits(err.status as nat) + "): "@ + err.error.message@
}

impl GroqApiError {
    /// The error in words.
    pub fn to_string(&self) -> (r: String)
        ensures
            r@ == api_error_text(*self),
    {
        let status = decimal_text(self.status as u64);
        "Groq API error (".to_owned().concat(status.as_str()).concat("): ").concat(
            self.error.message.as_str(),
        )
    }
}

/// Every failure that the client reports.
#[derive(Debug, Clone)]
pub enum GroqError {
    /// The API key is missing or does not have the expected form.
    InvalidApiKey(String),
    /// The request was refused before it was sent.
    InvalidMessage(String),
    /// The server asked to slow down and the retries ran out.
    RateLimited,
    /// The server answered with an error.
    Api(GroqApiError),
    /// The connection failed.
    Transport(TransportError),
    /// JSON could not be written or read.
    Serde(SerdeError),
    /// A URL could not be put together.
    UrlParse(String),
    /// The retry policy itself failed.
    Backoff(String),
}

impl GroqError {
    /// Whether the failure may go away if the request is sent again. That is
    /// so for a rate limit alone: a failure of the connection is final,
    /// unless the caller of the retry loop has said otherwise there.
    pub fn is_retryable(&self) -> (r: bool)
        ensures
            r == (self is RateLimited),
    {
        match self {
            GroqError::RateLimited => true,
            _ => false,
        }
    }

    /// Whether the failure is a rate limit.
    pub fn is_rate_limited(&self) -> (r: bool)
        ensures
            r == (self is RateLimited),
    {
        match self {
            GroqError::RateLimited => true,
            _ => false,
        }
    }

    /// Whether the failure is a refused credential.
    pub fn is_auth_error(&self) -> (r: bool)
        ensures
            r == (self is InvalidApiKey),
    {
        match self {
            GroqError::InvalidApiKey(_) => true,
            _ => false,
        }
    }
}

/// A failure in words.
pub open spec fn error_text(err: GroqError) -> Seq<char> {
    match err {
        GroqError::InvalidApiKey(m) => "Invalid API key: "@ + m@,
        GroqError::InvalidMessage(m) => "Invalid message: "@ + m@,
        GroqError::RateLimited => "Rate limited - too many requests"@,
        GroqError::Api(e) => "API error: "@ + api_error_text(e),
        GroqError::Transport(e) => "Transport error: "@ + ("HTTP transport error: "@ + e@),
        GroqError::Serde(e) => "Serialization error: "@ + ("JSON serialization error: "@ + e@),
        GroqError::UrlParse(m) => "URL parse error: "@ + m@,
        GroqError::Backoff(m) => "Backoff error: "@ + m@,
    }
}

impl GroqError {
    /// The failure in words.
    pub fn to_string(&self) -> (r: String)
        ensures
            r@ == error_text(*self),
    {
        match self {
            GroqError::InvalidApiKey(m) => "Invalid API key: ".to_owned().concat(m.as_str()),
            GroqError::InvalidMessage(m) => "Invalid message: ".to_owned().concat(m.as_str()),
            GroqError::RateLimited => "Rate limited - too many requests".to_owned(),
            GroqError::Api(e) => "API error: ".to_owned().concat(e.to_string().as_str()),
            GroqError::Transport(e) => "Transport error: ".to_owned().concat(
                e.to_string().as_str(),
            ),
            GroqError::Serde(e) => "Serialization error: ".to_owned().concat(
                e.to_string().as_str(),
            ),
            GroqError::UrlParse(m) => "URL parse error: ".to_owned().concat(m.as_str()),
            GroqError::Backoff(m) => "Backoff error: ".to_owned().concat(m.as_str()),
        }
    }
}

impl From<serde_json::Error> for GroqError {
    fn from(err: serde_json::Error) -> (r: GroqError) {
        GroqError::Serde(SerdeError::from(err))
    }
}

impl FromSpecImpl<serde_json::Error> for GroqError {
    open spec fn obeys_from_spec() -> bool {
        false
    }

    open spec fn from_spec(err: serde_json::Error) -> GroqError {
        arbitrary()
    }
}

impl From<reqwest::Error> for GroqError {
    fn from(err: reqwest::Error) -> (r: GroqError) {
        GroqError::Transport(TransportError::from(err))
    }
}

impl FromSpecImpl<reqwest::Error> for GroqError {
    open spec fn obeys_from_spec() -> bool {
        false
    }

    open spec fn from_spec(err: reqwest::Error) -> GroqError {
        arbitrary()
    }
}

impl From<url::ParseError> for GroqError {
    fn from(err: url::ParseError) -> (r: GroqError) {
        GroqError::UrlParse(url_message(&err))
    }
}

impl FromSpecImpl<url::ParseError> for GroqError {
    open spec fn obeys_from_spec() -> bool {
        false
    }

    open spec fn from_spec(err: url::ParseError) -> GroqError {
        arbitrary()
    }
}

impl From<GroqApiError> for GroqError {
    fn from(err: GroqApiError) -> (r: GroqError) {
        GroqError::Api(err)
    }
}

impl FromSpecImpl<GroqApiError> for GroqError {
    open spec fn obeys_from_spec() -> bool {
        true
    }

    open spec fn from_spec(err: GroqApiError) -> GroqError {
        GroqError::Api(err)
    }
}

impl From<TransportError> for GroqError {
    fn from(err: TransportError) -> (r: GroqError) {
        GroqError::Transport(err)
    }
}

impl FromSpecImpl<TransportError> for GroqError {
    open spec fn obeys_from_spec() -> bool {
        true
    }

    open spec fn from_spec(err: TransportError) -> GroqError {
        GroqError::Transport(err)
    }
}

impl From<SerdeError> for GroqError {
    fn from(err: SerdeError) -> (r: GroqError) {
        GroqError::Serde(err)
    }
}

impl FromSpecImpl<SerdeError> for GroqError {
    open spec fn obeys_from_spec() -> bool {
        true
    }

    open spec fn from_spec(err: SerdeError) -> GroqError {
        GroqError::Serde(err)
    }
}

} // verus!
