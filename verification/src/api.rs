//! The registry's API: what is sent, what comes back, and what an answer
//! means.

use vstd::prelude::*;
use vstd::string::StringSliceAdditionalSpecFns;
use crate::text::{decimal, decimal_text, joined, joined3};

verus! {

/// Several errors in one answer.
#[derive(Debug, Clone)]
pub struct ApiErrors {
    pub errors: Vec<ApiError>,
}

/// One error of the registry, with the field it is about where there is one.
#[derive(Debug, Clone)]
pub struct ApiError {
    pub message: String,
    pub field: Option<String>,
}

/// Asks the registry to let an application act for the user.
#[derive(Debug)]
pub struct AuthRequest {
    pub app_name: String,
    pub requested_permissions: Vec<String>,
}

/// The registry's answer to an `AuthRequest`: the codes of the new request
/// and the page on which the user decides.
#[derive(Debug)]
pub struct AuthRequestResponse {
    pub private_code: String,
    pub public_code: String,
    pub expires_at: String,
    pub request_url: String,
}

/// Where an authorization request stands.
#[derive(Debug)]
pub struct AuthRequestStatusResponse {
    pub status: AuthRequestStatus,
    pub expires_at: String,
    pub access_token: Option<String>,
}

/// What the user has decided.
#[derive(Debug, Clone, Copy)]
pub enum AuthRequestStatus {
    Pending,
    Approved,
    Denied,
}

/// The registry's answer to the removal of an authorization request.
#[derive(Debug)]
pub struct AuthRequestDeleteResponse {
    pub status: String,
}

/// Asks the registry to open a publish job.
#[derive(Debug)]
pub struct CreatePublishJobRequest {
    pub scope: String,
    pub name: String,
    pub version: String,
}

/// A publish job as the registry reports it.
#[derive(Debug)]
pub struct PublishJob {
    pub publishing_id: i64,
    pub package_scope: String,
    pub package_name: String,
    pub publishing_version: String,
    pub status: PackagePublishJobStatus,
    pub result: Option<PublishJobResult>,
}

/// How a finished job ended.
#[derive(Debug)]
pub enum PublishJobResult {
    Success,
    Error(PublishJobResultError),
}

/// Why a job failed.
#[derive(Debug)]
pub struct PublishJobResultError {
    pub errors: Vec<String>,
}

/// How far the registry has come with a job.
#[derive(Debug, Clone, Copy)]
pub enum PackagePublishJobStatus {
    Pending,
    Queued,
    InProgress,
    Completed,
    Failed,
}

impl AuthRequestStatusResponse {
    /// The answer holds a token if and only if the request is approved.
    pub open spec fn well_formed(self) -> bool {
        self.access_token is Some <==> self.status is Approved
    }
}

impl PublishJob {
    /// The job has a result only once it is completed or failed, and its
    /// result is one of failure if and only if it failed.
    pub open spec fn well_formed(self) -> bool {
        &&& self.result is Some ==> self.status is Completed || self.status is Failed
        &&& self.status is Failed <==> self.result matches Some(PublishJobResult::Error(_))
    }
}

/// The address of the registry where none is given.
pub const DEFAULT_API_URL: &'static str = "http://localhost:3333/api/";

/// A request that got no answer: what went wrong, and what caused it where
/// a cause is known.
#[derive(Debug)]
pub struct NetworkFailure {
    pub message: String,
    pub source: Option<String>,
}

/// Why a request to the registry failed.
#[derive(Debug)]
pub enum ApiRequestError {
    /// The registry refused with one error, or its answer was not understood.
    ApiError(String),
    /// The request needs a token, and the client has none.
    AuthError(String),
    /// No answer came.
    NetworkError(NetworkFailure),
    /// The registry refused with several errors.
    ValidationErrors(ApiErrors),
}

/// How a request is made.
#[derive(Debug, Clone, Copy)]
pub enum HttpMethod {
    Get,
    Post,
    Delete,
}

/// What a request carries.
#[derive(Debug)]
pub enum RequestBody {
    Empty,
    /// The request as JSON.
    Authorization(AuthRequest),
    /// The request as JSON.
    PublishJob(CreatePublishJobRequest),
    /// A form with one part, named `archive`, that holds the bytes.
    Archive(Vec<u8>),
}

/// A request to the registry, ready to be sent.
#[derive(Debug)]
pub struct ApiRequest {
    pub method: HttpMethod,
    pub url: String,
    /// The value of the `Authorization` header, where the request has one.
    pub authorization: Option<String>,
    pub body: RequestBody,
}

/// What sending a request came to.
pub enum ApiResponse<T> {
    /// No answer came, or its body could not be received.
    Failed(NetworkFailure),
    /// The registry refused. `single` is the body read as one error, `multi`
    /// the body read as several, each where the body has that form.
    Rejected { status: String, single: Option<ApiError>, multi: Option<ApiErrors>, body: String },
    /// The registry agreed. `parsed` is the body read as the expected answer,
    /// or the reason why it is none.
    Accepted { parsed: Result<T, String>, body: String },
}

/// `byte` stands for itself in a URL: an ASCII letter, a digit, or one of
/// `-`, `.`, `_`, `~`.
pub open spec fn unreserved(byte: u8) -> bool {
    (0x30 <= byte <= 0x39) || (0x41 <= byte <= 0x5a) || (0x61 <= byte <= 0x7a) || byte == 0x2d
        || byte == 0x2e || byte == 0x5f || byte == 0x7e
}

/// The upper-case hexadecimal digit for `value`.
pub open spec fn hex_digit(value: int) -> char
    recommends
        0 <= value < 16,
{
    if value < 10 {
        (0x30 + value) as u8 as char
    } else {
        (0x41 + value - 10) as u8 as char
    }
}

/// `bytes` percent-encoded: an unreserved byte stands for itself, any other
/// becomes `%` and its two hexadecimal digits.
pub open spec fn percent_encoded(bytes: Seq<u8>) -> Seq<char>
    decreases bytes.len(),
{
    if bytes.len() == 0 {
        Seq::empty()
    } else if unreserved(bytes.last()) {
        percent_encoded(bytes.drop_last()).push(bytes.last() as char)
    } else {
        percent_encoded(bytes.drop_last()) + seq![
            '%',
            hex_digit(bytes.last() as int / 16),
            hex_digit(bytes.last() as int % 16),
        ]
    }
}

fn is_unreserved(byte: u8) -> (plain: bool)
    ensures
        plain == unreserved(byte),
{
    (0x30 <= byte && byte <= 0x39) || (0x41 <= byte && byte <= 0x5a) || (0x61 <= byte && byte
        <= 0x7a) || byte == 0x2d || byte == 0x2e || byte == 0x5f || byte == 0x7e
}

fn hex_char(value: u8) -> (c: char)
    requires
        value < 16,
    ensures
        c == hex_digit(value as int),
{
    if value < 10 {
        (0x30u8 + value) as char
    } else {
        (0x41u8 + value - 10) as char
    }
}

/// The UTF-8 bytes of `text`, percent-encoded, as `urlencoding::encode`
/// writes them.
pub fn percent_encode(text: &str) -> (encoded: String)
    ensures
        encoded@ == percent_encoded(text.spec_bytes()),
{
    let bytes = text.as_bytes();
    let mut encoded = String::new();
    let mut i: usize = 0;
    while i < bytes.len()
        invariant
            i <= bytes.len(),
            bytes@ == text.spec_bytes(),
            encoded@ == percent_encoded(bytes@.take(i as int)),
        decreases bytes.len() - i,
    {
        let byte = bytes[i];
        proof {
            assert(bytes@.take(i + 1).drop_last() =~= bytes@.take(i as int));
        }
        if is_unreserved(byte) {
            encoded.push(byte as char);
        } else {
            encoded.push('%');
            encoded.push(hex_char(byte / 16));
            encoded.push(hex_char(byte % 16));
        }
        i = i + 1;
    }
    assert(bytes@.take(i as int) == bytes@);
    encoded
}

/// The client's side of the registry's API: who asks, where, and with which
/// token.
#[derive(Debug)]
pub struct BooApiClient {
    pub app_name: String,
    pub base_url: String,
    pub access_token: Option<String>,
}

impl BooApiClient {
    /// The token the client holds, as plain text.
    pub open spec fn token(&self) -> Option<Seq<char>> {
        match self.access_token {
            Some(token) => Some(token@),
            None => None,
        }
    }

    /// The address of an authorization request.
    pub open spec fn auth_request_url(&self, private_code: Seq<u8>) -> Seq<char> {
        self.base_url@ + "auth/request/"@ + percent_encoded(private_code)
    }

    /// The address of a publish job.
    pub open spec fn publish_job_url(&self, publishing_id: i64) -> Seq<char> {
        self.base_url@ + "publish/"@ + decimal(publishing_id as int)
    }

    /// What an authorized request carries in its `Authorization` header, or
    /// the error of a client without a token.
    pub open spec fn authorization(&self) -> Result<Seq<char>, Seq<char>> {
        match self.token() {
            Some(token) => Ok("Bearer "@ + token),
            None => Err("Missing access token"@),
        }
    }

    /// A client without a token that names itself `Boo CLI/` and `version`.
    /// It talks to `base_url`, or to the default address where none is given.
    pub fn new(base_url: Option<String>, version: &str) -> (client: Self)
        ensures
            client.app_name@ == "Boo CLI/"@ + version@,
            client.base_url@ == match base_url {
                Some(url) => url@,
                None => DEFAULT_API_URL@,
            },
            client.token() is None,
    {
        let base_url = match base_url {
            Some(url) => url,
            None => String::from_str(DEFAULT_API_URL),
        };
        BooApiClient { app_name: joined("Boo CLI/", version), base_url, access_token: None }
    }

    /// Gives the client the token to authorize its requests with.
    pub fn set_access_token(&mut self, token: String)
        ensures
            final(self).token() == Some(token@),
            final(self).app_name == old(self).app_name,
            final(self).base_url == old(self).base_url,
    {
        self.access_token = Some(token);
    }

    /// The client's token, or the error of a client that has none.
    pub fn get_access_token(&self) -> (token: Result<String, ApiRequestError>)
        ensures
            match token {
                Ok(text) => self.token() == Some(text@),
                Err(ApiRequestError::AuthError(message)) => self.token() is None && message@
                    == "Missing access token"@,
                Err(_) => false,
            },
    {
        match &self.access_token {
            Some(token) => Ok(token.clone()),
            None => Err(ApiRequestError::AuthError(String::from_str("Missing access token"))),
        }
    }

    fn authorization_header(&self) -> (header: Result<String, ApiRequestError>)
        ensures
            match header {
                Ok(text) => self.authorization() == Ok::<Seq<char>, Seq<char>>(text@),
                Err(ApiRequestError::AuthError(message)) => self.authorization() == Err::<
                    Seq<char>,
                    Seq<char>,
                >(message@),
                Err(_) => false,
            },
    {
        match self.get_access_token() {
            Ok(token) => Ok(joined("Bearer ", token.as_str())),
            Err(error) => Err(error),
        }
    }

    /// The request that opens an authorization request.
    pub fn create_auth_request(&self, request: AuthRequest) -> (call: ApiRequest)
        ensures
            call.method is Post,
            call.url@ == self.base_url@ + "auth/request"@,
            call.authorization is None,
            call.body == RequestBody::Authorization(request),
    {
        ApiRequest {
            method: HttpMethod::Post,
            url: joined(self.base_url.as_str(), "auth/request"),
            authorization: None,
            body: RequestBody::Authorization(request),
        }
    }

    /// The request that asks where the authorization request stands.
    pub fn get_auth_request_status(&self, private_code: &str) -> (call: ApiRequest)
        ensures
            call.method is Get,
            call.url@ == self.auth_request_url(private_code.spec_bytes()),
            call.authorization is None,
            call.body is Empty,
    {
        ApiRequest {
            method: HttpMethod::Get,
            url: joined3(
                self.base_url.as_str(),
                "auth/request/",
                percent_encode(private_code).as_str(),
            ),
            authorization: None,
            body: RequestBody::Empty,
        }
    }

    /// The request that removes the authorization request.
    pub fn delete_auth_request(&self, private_code: &str) -> (call: ApiRequest)
        ensures
            call.method is Delete,
            call.url@ == self.auth_request_url(private_code.spec_bytes()),
            call.authorization is None,
            call.body is Empty,
    {
        ApiRequest {
            method: HttpMethod::Delete,
            url: joined3(
                self.base_url.as_str(),
                "auth/request/",
                percent_encode(private_code).as_str(),
            ),
            authorization: None,
            body: RequestBody::Empty,
        }
    }

    /// The request that opens a publish job. It needs the token.
    pub fn create_publishing_job(&self, request: CreatePublishJobRequest) -> (call: Result<
        ApiRequest,
        ApiRequestError,
    >)
        ensures
            match call {
                Ok(call) => {
                    &&& call.method is Post
                    &&& call.url@ == self.base_url@ + "publish"@
                    &&& call.authorization matches Some(header) && self.authorization() == Ok::<
                        Seq<char>,
                        Seq<char>,
                    >(header@)
                    &&& call.body == RequestBody::PublishJob(request)
                },
                Err(ApiRequestError::AuthError(message)) => self.authorization() == Err::<
                    Seq<char>,
                    Seq<char>,
                >(message@),
                Err(_) => false,
            },
    {
        let header = match self.authorization_header() {
            Ok(header) => header,
            Err(error) => {
                return Err(error);
            },
        };
        Ok(
            ApiRequest {
                method: HttpMethod::Post,
                url: joined(self.base_url.as_str(), "publish"),
                authorization: Some(header),
                body: RequestBody::PublishJob(request),
            },
        )
    }

    /// The request that hands the archive to a publish job. It needs the
    /// token.
    pub fn upload_package(&self, publishing_id: &i64, buffer: Vec<u8>) -> (call: Result<
        ApiRequest,
        ApiRequestError,
    >)
        ensures
            match call {
                Ok(call) => {
                    &&& call.method is Post
                    &&& call.url@ == self.publish_job_url(*publishing_id) + "/upload"@
                    &&& call.authorization matches Some(header) && self.authorization() == Ok::<
                        Seq<char>,
                        Seq<char>,
                    >(header@)
                    &&& call.body == RequestBody::Archive(buffer)
                },
                Err(ApiRequestError::AuthError(message)) => self.authorization() == Err::<
                    Seq<char>,
                    Seq<char>,
                >(message@),
                Err(_) => false,
            },
    {
        let header = match self.authorization_header() {
            Ok(header) => header,
            Err(error) => {
                return Err(error);
            },
        };
        let mut url = joined3(
            self.base_url.as_str(),
            "publish/",
            decimal_text(*publishing_id).as_str(),
        );
        url.append("/upload");
        Ok(
            ApiRequest {
                method: HttpMethod::Post,
                url,
                authorization: Some(header),
                body: RequestBody::Archive(buffer),
            },
        )
    }

    /// The request that asks where a publish job stands. It needs the token.
    pub fn get_publish_job_status(&self, publishing_id: i64) -> (call: Result<
        ApiRequest,
        ApiRequestError,
    >)
        ensures
            match call {
                Ok(call) => {
                    &&& call.method is Get
                    &&& call.url@ == self.publish_job_url(publishing_id)
                    &&& call.authorization matches Some(header) && self.authorization() == Ok::<
                        Seq<char>,
                        Seq<char>,
                    >(header@)
                    &&& call.body is Empty
                },
                Err(ApiRequestError::AuthError(message)) => self.authorization() == Err::<
                    Seq<char>,
                    Seq<char>,
                >(message@),
                Err(_) => false,
            },
    {
        let header = match self.authorization_header() {
            Ok(header) => header,
            Err(error) => {
                return Err(error);
            },
        };
        Ok(
            ApiRequest {
                method: HttpMethod::Get,
                url: joined3(
                    self.base_url.as_str(),
                    "publish/",
                    decimal_text(publishing_id).as_str(),
                ),
                authorization: Some(header),
                body: RequestBody::Empty,
            },
        )
    }
}

/// What an answer means. A refusal is read as one error first, then as
/// several; a refusal of neither form is handed on as it came, with its
/// status. An agreement that cannot be read is an error too.
pub fn parse_response<T>(response: ApiResponse<T>) -> (outcome: Result<T, ApiRequestError>)
    ensures
        match response {
            ApiResponse::Failed(failure) => outcome == Err::<T, ApiRequestError>(
                ApiRequestError::NetworkError(failure),
            ),
            ApiResponse::Rejected { status, single, multi, body } => match (single, multi) {
                (Some(error), _) => outcome == Err::<T, ApiRequestError>(
                    ApiRequestError::ApiError(error.message),
                ),
                (None, Some(errors)) => outcome == Err::<T, ApiRequestError>(
                    ApiRequestError::ValidationErrors(errors),
                ),
                (None, None) => outcome matches Err(ApiRequestError::ApiError(message))
                    && message@ == "Request failed with status "@ + status@
                    + " and unknown error format: "@ + body@,
            },
            ApiResponse::Accepted { parsed, body } => match parsed {
                Ok(answer) => outcome == Ok::<T, ApiRequestError>(answer),
                Err(reason) => outcome matches Err(ApiRequestError::ApiError(message))
                    && message@ == "Failed to parse JSON response: "@ + reason@
                    + ". Response body: "@ + body@,
            },
        },
{
    match response {
        ApiResponse::Failed(failure) => Err(ApiRequestError::NetworkError(failure)),
        ApiResponse::Rejected { status, single, multi, body } => {
            match single {
                Some(error) => {
                    return Err(ApiRequestError::ApiError(error.message));
                },
                None => {},
            }
            match multi {
                Some(errors) => {
                    return Err(ApiRequestError::ValidationErrors(errors));
                },
                None => {},
            }
            let mut message = joined3(
                "Request failed with status ",
                status.as_str(),
                " and unknown error format: ",
            );
            message.append(body.as_str());
            Err(ApiRequestError::ApiError(message))
        },
        ApiResponse::Accepted { parsed, body } => match parsed {
            Ok(answer) => Ok(answer),
            Err(reason) => {
                let mut message = joined3(
                    "Failed to parse JSON response: ",
                    reason.as_str(),
                    ". Response body: ",
                );
                message.append(body.as_str());
                Err(ApiRequestError::ApiError(message))
            },
        },
    }
}

} // verus!
