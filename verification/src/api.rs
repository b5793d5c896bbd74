//! The outcome of one call of the API, and how a reply is turned into it.

use crate::json::{decode, decoded, field, viewed, FromJson, Json};
use crate::text::same;
use core::convert::Infallible;
use core::ops::ControlFlow;
use serde_json::Value;
use vstd::prelude::*;

pub mod b2_authorize_account;
pub mod b2_list_buckets;

verus! {

/// The machine-readable code of an error that the server returned.
#[derive(Clone, Copy, Debug, PartialEq, Eq, Structural)]
pub enum ApiErrorCode {
    /// The requested bucket ID does not match an existing bucket.
    BadBucketId,
    /// The request had the wrong fields or illegal values.
    BadRequest,
    /// A code that this library does not know.
    Other,
}

impl ApiErrorCode {
    /// The code that a name on the wire stands for. Every name that is not
    /// known stands for `Other`.
    pub open spec fn of_name(name: Seq<char>) -> ApiErrorCode {
        if name == "bad_bucket_id"@ {
            ApiErrorCode::BadBucketId
        } else if name == "bad_request"@ {
            ApiErrorCode::BadRequest
        } else {
            ApiErrorCode::Other
        }
    }

    /// The name under which a code goes on the wire. `Other` goes out as
    /// `other`, whatever name it came in under.
    pub open spec fn wire_name(self) -> Seq<char> {
        match self {
            ApiErrorCode::BadBucketId => "bad_bucket_id"@,
            ApiErrorCode::BadRequest => "bad_request"@,
            ApiErrorCode::Other => "other"@,
        }
    }

    /// Whether a name is one of the known codes.
    pub open spec fn is_known(name: Seq<char>) -> bool {
        name == "bad_bucket_id"@ || name == "bad_request"@
    }

    /// Reads a code from its name on the wire.
    pub fn from_name(name: &str) -> (code: ApiErrorCode)
        ensures
            code == Self::of_name(name@),
    {
        if same(name, "bad_bucket_id") {
            ApiErrorCode::BadBucketId
        } else if same(name, "bad_request") {
            ApiErrorCode::BadRequest
        } else {
            ApiErrorCode::Other
        }
    }

    /// The name under which the code goes on the wire.
    pub fn name(&self) -> (name: &'static str)
        ensures
            name@ == self.wire_name(),
    {
        match self {
            ApiErrorCode::BadBucketId => "bad_bucket_id",
            ApiErrorCode::BadRequest => "bad_request",
            ApiErrorCode::Other => "other",
        }
    }

    /// A string that is not one of the known names reads as `Other`, never as
    /// a failure, and `Other` is written as `other`. So reading and writing
    /// back does not return an unknown name: it is lost, and `other` stands
    /// in its place.
    pub proof fn unknown_name_reads_as_other(name: Seq<char>)
        requires
            !Self::is_known(name),
        ensures
            Self::of_name(name) == ApiErrorCode::Other,
            <Self as FromJson>::of_json(Json::Text(name)) == Some(ApiErrorCode::Other),
            Self::of_name(name).wire_name() == "other"@,
            name != "other"@ ==> Self::of_name(name).wire_name() != name,
    {
    }

    /// Every string reads as a value: there is no name that fails.
    pub proof fn every_name_reads(name: Seq<char>)
        ensures
            <Self as FromJson>::of_json(Json::Text(name)) == Some(Self::of_name(name)),
    {
    }

    /// Writing a code and reading the name back gives the same code.
    pub proof fn name_reads_back(code: ApiErrorCode)
        ensures
            Self::of_name(code.wire_name()) == code,
    {
        reveal_strlit("bad_bucket_id");
        reveal_strlit("bad_request");
        reveal_strlit("other");
        assert("bad_bucket_id"@.len() == 13);
        assert("bad_request"@.len() == 11);
        assert("other"@.len() == 5);
    }
}

impl View for ApiErrorCode {
    type V = ApiErrorCode;

    open spec fn view(&self) -> ApiErrorCode {
        *self
    }
}

impl FromJson for ApiErrorCode {
    /// A string reads as the code that it names; anything else is no code.
    open spec fn of_json(doc: Json) -> Option<ApiErrorCode> {
        match doc.text() {
            Some(name) => Some(ApiErrorCode::of_name(name)),
            None => None,
        }
    }

    fn from_json(doc: &Value) -> (r: Option<ApiErrorCode>) {
        match doc.as_str() {
            Some(name) => Some(ApiErrorCode::from_name(name)),
            None => None,
        }
    }
}

/// An error that the server returned in the body of a reply.
#[derive(Debug, PartialEq, Eq)]
pub struct ApiError {
    /// The numeric HTTP status code.
    pub status: usize,
    /// A single-identifier code that identifies the error.
    pub code: ApiErrorCode,
    /// A human-readable message, in English, saying what went wrong.
    pub message: String,
}

/// What an [`ApiError`] holds.
pub struct ApiErrorView {
    pub status: usize,
    pub code: ApiErrorCode,
    pub message: Seq<char>,
}

impl View for ApiError {
    type V = ApiErrorView;

    open spec fn view(&self) -> ApiErrorView {
        ApiErrorView { status: self.status, code: self.code, message: self.message@ }
    }
}

impl FromJson for ApiError {
    /// An error body is an object with a size under `status` and strings
    /// under `code` and `message`. Other members are passed over.
    open spec fn of_json(doc: Json) -> Option<ApiErrorView> {
        match (
            doc.field::<usize>("status"@),
            doc.field::<ApiErrorCode>("code"@),
            doc.field::<String>("message"@),
        ) {
            (Some(status), Some(code), Some(message)) => Some(
                ApiErrorView { status, code, message },
            ),
            _ => None,
        }
    }

    fn from_json(doc: &Value) -> (r: Option<ApiError>) {
        let status = field::<usize>(doc, "status")?;
        let code = field::<ApiErrorCode>(doc, "code")?;
        let message = field::<String>(doc, "message")?;
        Some(ApiError { status, code, message })
    }
}

/// The HTTP method of a request.
#[derive(Clone, Copy, Debug, PartialEq, Eq, Structural)]
pub enum Method {
    Get,
    Post,
}

/// How a request proves who sends it.
#[derive(Debug, PartialEq, Eq)]
pub enum Credentials {
    /// HTTP Basic authentication with a user name and a password.
    Basic { username: String, password: String },
    /// An authorization token, which is the whole value of the
    /// `Authorization` header.
    Token { token: String },
}

/// What [`Credentials`] hold.
pub enum CredentialsView {
    Basic { username: Seq<char>, password: Seq<char> },
    Token { token: Seq<char> },
}

impl View for Credentials {
    type V = CredentialsView;

    open spec fn view(&self) -> CredentialsView {
        match *self {
            Credentials::Basic { username, password } => CredentialsView::Basic {
                username: username@,
                password: password@,
            },
            Credentials::Token { token } => CredentialsView::Token { token: token@ },
        }
    }
}

/// A request, described for the transport that is to send it.
#[derive(Debug, PartialEq, Eq)]
pub struct HttpRequest {
    /// The HTTP method.
    pub method: Method,
    /// The URL that the request goes to.
    pub url: String,
    /// What goes into the `Authorization` header.
    pub credentials: Credentials,
    /// The JSON text of the body, where the request has one.
    pub body: Option<String>,
}

/// What an [`HttpRequest`] holds.
pub struct HttpRequestView {
    pub method: Method,
    pub url: Seq<char>,
    pub credentials: CredentialsView,
    pub body: Option<Seq<char>>,
}

impl View for HttpRequest {
    type V = HttpRequestView;

    open spec fn view(&self) -> HttpRequestView {
        HttpRequestView {
            method: self.method,
            url: self.url@,
            credentials: self.credentials@,
            body: viewed(self.body),
        }
    }
}

/// What every endpoint has in common. A sender, which is the configuration
/// before a session exists and the session after, implements this once for
/// each kind of request body `T` that it can send. The implementation says
/// where such a request goes and what it carries, and names the types that
/// the two kinds of reply body are read as. Sending is left to the transport;
/// [`ApiResult::from_exchange`] then turns what came back into the outcome.
pub trait OutgoingRequest<T> {
    /// What the body of a reply with a success status is read as.
    type Response: FromJson;

    /// What the body of a reply with any other status is read as.
    type Error: FromJson;

    /// The request that stands for `body`.
    spec fn request_of(&self, body: &T) -> HttpRequestView;

    /// Describes the request that stands for `body`.
    fn request(&self, body: &T) -> (r: HttpRequest)
        ensures
            r@ == self.request_of(body),
    ;
}

/// What the server answered in a call that was completed and understood.
#[derive(Debug, PartialEq, Eq)]
pub enum ApiResponse<R, E> {
    /// The server did what was asked; this is what it returned.
    Success(R),
    /// The server refused; this is the error it returned.
    Error(E),
}

/// The outcome of one call: an answer of the server, or the failure of the
/// call itself.
#[derive(Debug, PartialEq, Eq)]
pub enum ApiResult<R, E, F> {
    /// The call was completed and the body of the reply was understood.
    Response(ApiResponse<R, E>),
    /// The call was not completed, or the body of the reply was not
    /// understood.
    Failure(F),
}

/// Why a call failed without an answer that could be read.
#[derive(Debug, PartialEq, Eq)]
pub enum Failure<T> {
    /// The transport could not complete the exchange; this is its error.
    Transport(T),
    /// The status reported success, and the body is not what a success
    /// returns.
    UnreadableResponse,
    /// The status reported an error, and the body is not an error body.
    UnreadableError,
}

/// A reply as the transport hands it over: the status line and the whole
/// body.
#[derive(Debug, PartialEq, Eq)]
pub struct Reply {
    /// The HTTP status code.
    pub status: u16,
    /// The bytes of the body.
    pub body: Vec<u8>,
}

/// Whether an HTTP status code reports success: the codes from 200 to 299.
pub open spec fn is_success(status: u16) -> bool {
    200 <= status <= 299
}

impl<R: View, E: View> View for ApiResponse<R, E> {
    type V = ApiResponse<R::V, E::V>;

    open spec fn view(&self) -> ApiResponse<R::V, E::V> {
        match *self {
            ApiResponse::Success(r) => ApiResponse::Success(r@),
            ApiResponse::Error(e) => ApiResponse::Error(e@),
        }
    }
}

impl<R: View, E: View, F> View for ApiResult<R, E, F> {
    type V = ApiResult<R::V, E::V, F>;

    open spec fn view(&self) -> ApiResult<R::V, E::V, F> {
        match *self {
            ApiResult::Response(response) => ApiResult::Response(response@),
            ApiResult::Failure(f) => ApiResult::Failure(f),
        }
    }
}

impl Reply {
    /// Tells whether the status reports success.
    pub fn is_success(&self) -> (r: bool)
        ensures
            r == is_success(self.status),
    {
        200 <= self.status && self.status <= 299
    }
}

impl<R, E, F> ApiResult<R, E, F> {
    /// The outcome that carries an answer of the server.
    pub fn from_output(output: ApiResponse<R, E>) -> (out: Self)
        ensures
            out == ApiResult::<R, E, F>::Response(output),
    {
        ApiResult::Response(output)
    }

    /// The outcome that carries a failure which an earlier step broke off
    /// with. A residual is always an `Err`, since nothing can be put into
    /// its `Ok`.
    pub fn from_residual(residual: Result<Infallible, F>) -> (out: Self)
        requires
            residual is Err,
        ensures
            out == ApiResult::<R, E, F>::Failure(residual->Err_0),
    {
        ApiResult::Failure(residual.unwrap_err())
    }

    /// Parts the outcome in two. An answer of the server, whether a success
    /// or an error, is what a caller goes on with; a failure is what it
    /// breaks off with.
    pub fn branch(self) -> (flow: ControlFlow<Result<Infallible, F>, ApiResponse<R, E>>)
        ensures
            flow == match self {
                ApiResult::Response(response) => ControlFlow::<
                    Result<Infallible, F>,
                    ApiResponse<R, E>,
                >::Continue(response),
                ApiResult::Failure(failure) => ControlFlow::Break(Err(failure)),
            },
    {
        match self {
            ApiResult::Response(response) => ControlFlow::Continue(response),
            ApiResult::Failure(failure) => ControlFlow::Break(Err(failure)),
        }
    }

    /// Goes on with the next step of a sequence of calls. Where the outcome
    /// is a success, `next` is run on what the server returned and its outcome
    /// is the result. An error of the server and a failure of the call both
    /// end the sequence: they are handed on as they are, and `next` is not
    /// run.
    pub fn and_then<R2, N: FnOnce(R) -> ApiResult<R2, E, F>>(self, next: N) -> (out: ApiResult<
        R2,
        E,
        F,
    >)
        requires
            self matches ApiResult::Response(ApiResponse::Success(r)) ==> next.requires((r,)),
        ensures
            match self {
                ApiResult::Response(ApiResponse::Success(r)) => next.ensures((r,), out),
                ApiResult::Response(ApiResponse::Error(e)) => out == ApiResult::<
                    R2,
                    E,
                    F,
                >::Response(ApiResponse::Error(e)),
                ApiResult::Failure(failure) => out == ApiResult::<R2, E, F>::Failure(failure),
            },
    {
        match self {
            ApiResult::Response(ApiResponse::Success(r)) => next(r),
            ApiResult::Response(ApiResponse::Error(e)) => ApiResult::Response(
                ApiResponse::Error(e),
            ),
            ApiResult::Failure(failure) => ApiResult::Failure(failure),
        }
    }
}

impl<R: FromJson, E: FromJson, T> ApiResult<R, E, Failure<T>> {
    /// The outcome that a reply stands for. A status that reports success
    /// asks for the body of a success, any other status for an error body;
    /// a body that cannot be read as what the status asks for is a failure
    /// of the call, never an answer.
    pub open spec fn of_reply(status: u16, body: Seq<u8>) -> ApiResult<R::V, E::V, Failure<T>> {
        if is_success(status) {
            match decoded::<R>(body) {
                Some(r) => ApiResult::Response(ApiResponse::Success(r)),
                None => ApiResult::Failure(Failure::UnreadableResponse),
            }
        } else {
            match decoded::<E>(body) {
                Some(e) => ApiResult::Response(ApiResponse::Error(e)),
                None => ApiResult::Failure(Failure::UnreadableError),
            }
        }
    }

    /// The outcome of an exchange: that of the reply, or the failure of the
    /// transport.
    pub open spec fn of_exchange(exchange: Result<Reply, T>) -> ApiResult<
        R::V,
        E::V,
        Failure<T>,
    > {
        match exchange {
            Ok(reply) => Self::of_reply(reply.status, reply.body@),
            Err(e) => ApiResult::Failure(Failure::Transport(e)),
        }
    }

    /// The outcome of a reply is an answer exactly where the body was read as
    /// what the status asks for, and the answer is what was read. A body that
    /// was not read is a failure of the call: a success status never gives
    /// an error of the server, an error status never gives a success, and a
    /// reply never gives a failure of the transport.
    pub proof fn answer_is_the_body_read(status: u16, body: Seq<u8>)
        ensures
            match Self::of_reply(status, body) {
                ApiResult::Response(ApiResponse::Success(r)) => is_success(status) && decoded::<
                    R,
                >(body) == Some(r),
                ApiResult::Response(ApiResponse::Error(e)) => !is_success(status) && decoded::<E>(
                    body,
                ) == Some(e),
                ApiResult::Failure(Failure::UnreadableResponse) => is_success(status) && decoded::<
                    R,
                >(body) is None,
                ApiResult::Failure(Failure::UnreadableError) => !is_success(status) && decoded::<
                    E,
                >(body) is None,
                ApiResult::Failure(Failure::Transport(_)) => false,
            },
    {
    }

    /// The outcome of a call whose status reported success, given what its
    /// body was read as.
    pub fn from_success_body(read: Option<R>) -> (out: Self)
        ensures
            out == match read {
                Some(r) => ApiResult::<R, E, Failure<T>>::Response(ApiResponse::Success(r)),
                None => ApiResult::Failure(Failure::UnreadableResponse),
            },
    {
        match read {
            Some(r) => ApiResult::Response(ApiResponse::Success(r)),
            None => ApiResult::Failure(Failure::UnreadableResponse),
        }
    }

    /// The outcome of a call whose status reported an error, given what its
    /// body was read as.
    pub fn from_error_body(read: Option<E>) -> (out: Self)
        ensures
            out == match read {
                Some(e) => ApiResult::<R, E, Failure<T>>::Response(ApiResponse::Error(e)),
                None => ApiResult::Failure(Failure::UnreadableError),
            },
    {
        match read {
            Some(e) => ApiResult::Response(ApiResponse::Error(e)),
            None => ApiResult::Failure(Failure::UnreadableError),
        }
    }

    /// Classifies a reply that the transport delivered.
    pub fn from(value: Reply) -> (out: Self)
        ensures
            out@ == Self::of_reply(value.status, value.body@),
    {
        if value.is_success() {
            Self::from_success_body(decode::<R>(value.body.as_slice()))
        } else {
            Self::from_error_body(decode::<E>(value.body.as_slice()))
        }
    }

    /// Classifies the outcome of an exchange with the server.
    pub fn from_exchange(exchange: Result<Reply, T>) -> (out: Self)
        ensures
            out@ == Self::of_exchange(exchange),
    {
        match exchange {
            Ok(reply) => Self::from(reply),
            Err(e) => ApiResult::Failure(Failure::Transport(e)),
        }
    }
}

} // verus!
