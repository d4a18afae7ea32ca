//! What the content delivery API of a stack gives and how it may fail.

pub mod response;

pub use response::{ContentTypeResponse, GlobalFieldResponse};

use crate::region::Region;
use crate::text::{decimal, decimal_text, trim, trimmed};
use serde_json::Error as JsonError;
use ureq::Error as HttpError;
use vstd::prelude::*;

verus! {

/// `ureq::Error`, the failure of a request. It is carried as it is: nothing
/// is known of what it holds.
#[verifier::external_type_specification]
#[verifier::external_body]
pub struct ExHttpError(HttpError);

/// `serde_json::Error`, the failure to read JSON. It is carried as it is:
/// nothing is known of what it holds.
#[verifier::external_type_specification]
#[verifier::external_body]
pub struct ExJsonError(JsonError);

/// `ureq::Agent`, which sends requests. It is carried as it is: nothing is
/// known of what it holds.
#[verifier::external_type_specification]
#[verifier::external_body]
pub struct ExAgent(ureq::Agent);

/// Why the stack could not be read.
#[derive(Debug)]
pub enum ContentstackError {
    /// The request did not get an answer.
    Http(Box<ureq::Error>),
    /// The answer was no JSON of the expected shape.
    Json(serde_json::Error),
    /// The answer could not be read to its end.
    Io(std::io::Error),
    /// A credential is missing; `field` names it.
    InvalidCredentials { field: String },
    /// The API answered with a status that reports a failure.
    Api { status: u16, message: String },
}

impl ContentstackError {
    /// What the message of each kind of failure begins with.
    pub open spec fn lead(self) -> Seq<char> {
        match self {
            ContentstackError::Http(_) => "HTTP request failed: "@,
            ContentstackError::Json(_) => "JSON parsing failed: "@,
            ContentstackError::Io(_) => "IO error: "@,
            ContentstackError::InvalidCredentials { .. } => "Invalid credentials: "@,
            ContentstackError::Api { .. } => "API error: "@,
        }
    }

    /// The whole message of a failure that this library found itself. A
    /// failure passed on from elsewhere words its own message.
    pub open spec fn own_message(self) -> Option<Seq<char>> {
        match self {
            ContentstackError::InvalidCredentials { field } => Some(self.lead() + field@),
            ContentstackError::Api { status, message } => Some(
                self.lead() + decimal(status as int) + " - "@ + message@,
            ),
            _ => None,
        }
    }

    /// Whether the failure was passed on from elsewhere.
    pub open spec fn is_passed_on(self) -> bool {
        self is Http || self is Json || self is Io
    }

    /// The message of the failure beneath this one, where this one was
    /// passed on from elsewhere.
    pub fn source(&self) -> (r: Option<String>)
        ensures
            r is Some <==> self.is_passed_on(),
    {
        match self {
            ContentstackError::Http(e) => Some(e.to_string()),
            ContentstackError::Json(e) => Some(e.to_string()),
            ContentstackError::Io(e) => Some(e.to_string()),
            _ => None,
        }
    }

    /// The failure that a status of the API reports. The message is what the
    /// API sent with it, or `Unknown error` where that could not be read.
    pub fn from_status(status: u16, body: Option<String>) -> (r: ContentstackError)
        ensures
            r matches ContentstackError::Api { status: s, message: m } && s == status && m@ == (
            match body {
                Some(b) => b@,
                None => "Unknown error"@,
            }),
    {
        let message = match body {
            Some(b) => b,
            None => String::from_str("Unknown error"),
        };
        ContentstackError::Api { status, message }
    }

    /// The message for the user: the lead of the kind, then the name of the
    /// credential, or the status and what the API said, or the message of the
    /// failure that was passed on.
    pub fn to_string(&self) -> (r: String)
        ensures
            self.lead().is_prefix_of(r@),
            self.own_message() matches Some(m) ==> r@ == m,
    {
        match self {
            ContentstackError::Http(e) => {
                let mut r = String::from_str("HTTP request failed: ");
                let inner = e.to_string();
                r.append(inner.as_str());
                r
            },
            ContentstackError::Json(e) => {
                let mut r = String::from_str("JSON parsing failed: ");
                let inner = e.to_string();
                r.append(inner.as_str());
                r
            },
            ContentstackError::Io(e) => {
                let mut r = String::from_str("IO error: ");
                let inner = e.to_string();
                r.append(inner.as_str());
                r
            },
            ContentstackError::InvalidCredentials { field } => {
                let mut r = String::from_str("Invalid credentials: ");
                r.append(field.as_str());
                r
            },
            ContentstackError::Api { status, message } => {
                let mut r = String::from_str("API error: ");
                let code = decimal_text(*status as i32);
                r.append(code.as_str());
                r.append(" - ");
                r.append(message.as_str());
                r
            },
        }
    }
}

impl From<HttpError> for ContentstackError {
    fn from(error: HttpError) -> (r: ContentstackError) {
        ContentstackError::Http(Box::new(error))
    }
}

impl vstd::std_specs::convert::FromSpecImpl<HttpError> for ContentstackError {
    open spec fn obeys_from_spec() -> bool {
        true
    }

    open spec fn from_spec(error: HttpError) -> ContentstackError {
        ContentstackError::Http(Box::new(error))
    }
}

impl From<JsonError> for ContentstackError {
    fn from(error: JsonError) -> (r: ContentstackError) {
        ContentstackError::Json(error)
    }
}

impl vstd::std_specs::convert::FromSpecImpl<JsonError> for ContentstackError {
    open spec fn obeys_from_spec() -> bool {
        true
    }

    open spec fn from_spec(error: JsonError) -> ContentstackError {
        ContentstackError::Json(error)
    }
}

impl From<std::io::Error> for ContentstackError {
    fn from(error: std::io::Error) -> (r: ContentstackError) {
        ContentstackError::Io(error)
    }
}

impl vstd::std_specs::convert::FromSpecImpl<std::io::Error> for ContentstackError {
    open spec fn obeys_from_spec() -> bool {
        true
    }

    open spec fn from_spec(error: std::io::Error) -> ContentstackError {
        ContentstackError::Io(error)
    }
}

/// What came of a request to the API.
#[derive(Debug)]
pub enum Answer {
    /// The API answered with success, and this is the body.
    Body(String),
    /// The API answered with success, but the body could not be read.
    Unread(std::io::Error),
    /// The API answered with a status that reports a failure; the body is
    /// there where it could be read.
    Status(u16, Option<String>),
    /// No answer came.
    Failed(Box<HttpError>),
}

/// Seconds after which a request is given up.
pub const REQUEST_TIMEOUT_SECS: u64 = 30;

/// `ureq::AgentBuilder::new`, `timeout` and `build`: an agent that gives a
/// request up after `seconds` seconds and is otherwise as the builder makes
/// it. Nothing is claimed of the agent.
#[verifier::external_body]
fn agent_with_timeout(seconds: u64) -> (agent: ureq::Agent) {
    ureq::AgentBuilder::new().timeout(std::time::Duration::from_secs(seconds)).build()
}

/// The address of the content delivery network in a region.
pub open spec fn base_url_of(region: Region) -> Seq<char> {
    match region {
        Region::Europe => "https://eu-cdn.contentstack.com"@,
        Region::NorthAmerica => "https://cdn.contentstack.io"@,
        Region::Australia => "https://au-cdn.contentstack.com"@,
    }
}

/// The credential that is missing: the API key where trimming leaves nothing
/// of it, else the access token where trimming leaves nothing of that, else
/// none.
pub open spec fn missing_credential(api_key: Seq<char>, access_token: Seq<char>) -> Option<
    Seq<char>,
> {
    if trimmed(api_key).len() == 0 {
        Some("api_key"@)
    } else if trimmed(access_token).len() == 0 {
        Some("access_token"@)
    } else {
        None
    }
}

/// Access to one stack: where it is served, the credentials that open it,
/// and the agent that sends the requests.
pub struct Client {
    agent: ureq::Agent,
    api_key: String,
    access_token: String,
    base_url: String,
}

/// What a [`Client`] holds, but for the agent.
pub struct ClientView {
    pub api_key: Seq<char>,
    pub access_token: Seq<char>,
    pub base_url: Seq<char>,
}

impl View for Client {
    type V = ClientView;

    closed spec fn view(&self) -> ClientView {
        ClientView {
            api_key: self.api_key@,
            access_token: self.access_token@,
            base_url: self.base_url@,
        }
    }
}

impl Client {
    /// The agent of the client.
    pub closed spec fn agent_spec(&self) -> ureq::Agent {
        self.agent
    }

    /// A client for the stack in `region`. Both credentials are trimmed. One
    /// of which nothing is left is refused, and the failure names it; the API
    /// key is looked at first.
    pub fn new(region: Region, api_key: &str, access_token: &str) -> (r: Result<
        Client,
        ContentstackError,
    >)
        ensures
            match r {
                Ok(client) => {
                    &&& missing_credential(api_key@, access_token@) is None
                    &&& client@ == (ClientView {
                        api_key: trimmed(api_key@),
                        access_token: trimmed(access_token@),
                        base_url: base_url_of(region),
                    })
                },
                Err(e) => {
                    &&& e matches ContentstackError::InvalidCredentials { field }
                    &&& missing_credential(api_key@, access_token@) == Some(field@)
                },
            },
    {
        let key = trim(api_key);
        if key.is_empty() {
            return Err(
                ContentstackError::InvalidCredentials { field: String::from_str("api_key") },
            );
        }
        let token = trim(access_token);
        if token.is_empty() {
            return Err(
                ContentstackError::InvalidCredentials { field: String::from_str("access_token") },
            );
        }
        let base_url = match region {
            Region::Europe => String::from_str("https://eu-cdn.contentstack.com"),
            Region::NorthAmerica => String::from_str("https://cdn.contentstack.io"),
            Region::Australia => String::from_str("https://au-cdn.contentstack.com"),
        };
        Ok(
            Client {
                agent: agent_with_timeout(REQUEST_TIMEOUT_SECS),
                api_key: String::from_str(key),
                access_token: String::from_str(token),
                base_url,
            },
        )
    }

    /// The body of an answer, or the failure that the answer stands for: a
    /// body that could not be read is a failure of reading, a status of
    /// failure is a failure of the API with that status and what it said, and
    /// a request without an answer is a failure of the request.
    pub fn read_answer(answer: Answer) -> (r: Result<String, ContentstackError>)
        ensures
            match answer {
                Answer::Body(text) => r == Ok::<String, ContentstackError>(text),
                Answer::Unread(e) => r == Err::<String, ContentstackError>(
                    ContentstackError::Io(e),
                ),
                Answer::Status(status, body) => {
                    &&& r matches Err(ContentstackError::Api { status: s, message: m })
                    &&& s == status
                    &&& m@ == match body {
                        Some(b) => b@,
                        None => "Unknown error"@,
                    }
                },
                Answer::Failed(e) => r == Err::<String, ContentstackError>(
                    ContentstackError::Http(e),
                ),
            },
    {
        match answer {
            Answer::Body(text) => Ok(text),
            Answer::Unread(e) => Err(ContentstackError::from(e)),
            Answer::Status(status, body) => Err(ContentstackError::from_status(status, body)),
            Answer::Failed(e) => Err(ContentstackError::Http(e)),
        }
    }

    /// The address that lists the content types of the stack.
    pub fn content_types_url(&self) -> (r: String)
        ensures
            r@ == self@.base_url + "/v3/content_types"@,
    {
        let mut r = self.base_url.clone();
        r.append("/v3/content_types");
        r
    }

    /// The address that lists the global fields of the stack, each with its
    /// schema.
    pub fn global_fields_url(&self) -> (r: String)
        ensures
            r@ == self@.base_url + "/v3/global_fields?include_global_field_schema=true"@,
    {
        let mut r = self.base_url.clone();
        r.append("/v3/global_fields?include_global_field_schema=true");
        r
    }

    /// The API key, trimmed.
    pub fn api_key(&self) -> (r: &str)
        ensures
            r@ == self@.api_key,
    {
        self.api_key.as_str()
    }

    /// The access token, trimmed.
    pub fn access_token(&self) -> (r: &str)
        ensures
            r@ == self@.access_token,
    {
        self.access_token.as_str()
    }

    /// The agent that sends the requests of this client.
    pub fn agent(&self) -> (r: &ureq::Agent)
        ensures
            *r == self.agent_spec(),
    {
        &self.agent
    }
}

} // verus!
