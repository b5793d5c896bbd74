//! A session with the API: what the authorization returned, and the transport
//! that later calls go through.

use crate::api::b2_authorize_account::{Response, ResponseView, StorageApi};
use crate::api::{
    is_success, ApiError, ApiErrorCode, ApiErrorView, ApiResponse, ApiResult, Failure, Reply,
};
use crate::json::{decoded, json_document, Json};
use vstd::prelude::*;
use vstd::std_specs::convert::FromSpecImpl;

verus! {

/// Why no session could be made.
#[derive(Debug, PartialEq, Eq)]
pub enum SessionError {
    /// The request did not reach the server, or no reply came back. This is
    /// usually due to connectivity.
    RequestFailed,
    /// The server rejected the credentials, and said why.
    AuthenticationRejected {
        /// The machine-readable error code returned with the rejection.
        code: ApiErrorCode,
        /// The human-readable error message returned with the rejection.
        message: String,
    },
    /// The server reported success, and the body of its reply is not what a
    /// successful authorization returns. This should only happen where the
    /// library and the server speak different versions of the API.
    SuccessfulDeserializationFailed,
    /// The server reported an error, and the body of its reply is not an
    /// error body. This should only happen where the library and the server
    /// speak different versions of the API.
    ErrorDeserializationFailed,
}

/// What a [`SessionError`] holds.
pub enum SessionErrorView {
    RequestFailed,
    AuthenticationRejected { code: ApiErrorCode, message: Seq<char> },
    SuccessfulDeserializationFailed,
    ErrorDeserializationFailed,
}

impl View for SessionError {
    type V = SessionErrorView;

    open spec fn view(&self) -> SessionErrorView {
        match *self {
            SessionError::RequestFailed => SessionErrorView::RequestFailed,
            SessionError::AuthenticationRejected { code, message } => {
                SessionErrorView::AuthenticationRejected { code, message: message@ }
            },
            SessionError::SuccessfulDeserializationFailed => {
                SessionErrorView::SuccessfulDeserializationFailed
            },
            SessionError::ErrorDeserializationFailed => {
                SessionErrorView::ErrorDeserializationFailed
            },
        }
    }
}

impl<T> From<Failure<T>> for SessionError {
    /// The reason that a failed call gives for having no session. What the
    /// transport reported about its failure is dropped.
    fn from(value: Failure<T>) -> (error: SessionError) {
        match value {
            Failure::Transport(_) => SessionError::RequestFailed,
            Failure::UnreadableResponse => SessionError::SuccessfulDeserializationFailed,
            Failure::UnreadableError => SessionError::ErrorDeserializationFailed,
        }
    }
}

impl<T> FromSpecImpl<Failure<T>> for SessionError {
    open spec fn obeys_from_spec() -> bool {
        true
    }

    open spec fn from_spec(value: Failure<T>) -> SessionError {
        match value {
            Failure::Transport(_) => SessionError::RequestFailed,
            Failure::UnreadableResponse => SessionError::SuccessfulDeserializationFailed,
            Failure::UnreadableError => SessionError::ErrorDeserializationFailed,
        }
    }
}

impl From<ApiError> for SessionError {
    /// The rejection that an error of the server stands for: its code and
    /// its message, without the status.
    fn from(value: ApiError) -> (error: SessionError) {
        SessionError::AuthenticationRejected { code: value.code, message: value.message }
    }
}

impl FromSpecImpl<ApiError> for SessionError {
    open spec fn obeys_from_spec() -> bool {
        true
    }

    open spec fn from_spec(value: ApiError) -> SessionError {
        SessionError::AuthenticationRejected { code: value.code, message: value.message }
    }
}

/// A session with the API. It holds what one authorization returned, the
/// token and the description of the account together, and the transport
/// handle that the calls of the session reuse. Nothing in it changes after it
/// was made: when the token runs out, a new session is made.
#[derive(Debug)]
pub struct Session<H> {
    /// What the authorization returned.
    authorization: Response,
    /// The transport handle that the session reuses.
    http_client: H,
}

/// What a [`Session`] holds.
pub struct SessionView<H> {
    pub authorization: ResponseView,
    pub http_client: H,
}

impl<H> View for Session<H> {
    type V = SessionView<H>;

    closed spec fn view(&self) -> SessionView<H> {
        SessionView { authorization: self.authorization@, http_client: self.http_client }
    }
}

/// What an attempt to make a session ends in, by its model.
pub open spec fn attempt<H>(r: Result<Session<H>, SessionError>) -> Result<
    SessionView<H>,
    SessionErrorView,
> {
    match r {
        Ok(session) => Ok(session@),
        Err(error) => Err(error@),
    }
}

impl<H> Session<H> {
    /// What the outcome of the authorization call makes of an attempt: a
    /// session that holds what the server returned and the transport handle,
    /// or the reason why there is none.
    pub open spec fn of_outcome<T>(
        http_client: H,
        outcome: ApiResult<ResponseView, ApiErrorView, Failure<T>>,
    ) -> Result<SessionView<H>, SessionErrorView> {
        match outcome {
            ApiResult::Response(ApiResponse::Success(authorization)) => Ok(
                SessionView { authorization, http_client },
            ),
            ApiResult::Response(ApiResponse::Error(error)) => Err(
                SessionErrorView::AuthenticationRejected {
                    code: error.code,
                    message: error.message,
                },
            ),
            ApiResult::Failure(Failure::Transport(_)) => Err(SessionErrorView::RequestFailed),
            ApiResult::Failure(Failure::UnreadableResponse) => Err(
                SessionErrorView::SuccessfulDeserializationFailed,
            ),
            ApiResult::Failure(Failure::UnreadableError) => Err(
                SessionErrorView::ErrorDeserializationFailed,
            ),
        }
    }

    /// What an exchange with the authorization endpoint makes of an attempt.
    pub open spec fn of_exchange<T>(http_client: H, exchange: Result<Reply, T>) -> Result<
        SessionView<H>,
        SessionErrorView,
    > {
        Self::of_outcome(
            http_client,
            ApiResult::<Response, ApiError, Failure<T>>::of_exchange(exchange),
        )
    }

    /// Where the transport fails there is no session, and the error is
    /// `RequestFailed`, whatever the transport reported.
    pub proof fn transport_failure_gives_no_session<T>(http_client: H, failure: T)
        ensures
            Self::of_exchange(http_client, Err::<Reply, T>(failure)) == Err::<
                SessionView<H>,
                SessionErrorView,
            >(SessionErrorView::RequestFailed),
    {
    }

    /// A rejection is never made up: the attempt ends in
    /// `AuthenticationRejected` exactly where the reply has an error status
    /// and its body was read as an error, and then the code and the message
    /// are those of that error. An error status with a body that was not
    /// read ends in `ErrorDeserializationFailed`.
    pub proof fn rejection_is_the_error_read<T>(http_client: H, reply: Reply)
        requires
            !is_success(reply.status),
        ensures
            Self::of_exchange(http_client, Ok::<Reply, T>(reply)) == match decoded::<ApiError>(
                reply.body@,
            ) {
                Some(error) => Err::<SessionView<H>, SessionErrorView>(
                    SessionErrorView::AuthenticationRejected {
                        code: error.code,
                        message: error.message,
                    },
                ),
                None => Err(SessionErrorView::ErrorDeserializationFailed),
            },
    {
    }

    /// A success status gives a session exactly where the body was read as
    /// an authorization, and the session holds that authorization. A body
    /// that was not read ends in `SuccessfulDeserializationFailed`.
    pub proof fn session_is_the_authorization_read<T>(http_client: H, reply: Reply)
        requires
            is_success(reply.status),
        ensures
            Self::of_exchange(http_client, Ok::<Reply, T>(reply)) == match decoded::<Response>(
                reply.body@,
            ) {
                Some(authorization) => Ok::<SessionView<H>, SessionErrorView>(
                    SessionView { authorization, http_client },
                ),
                None => Err(SessionErrorView::SuccessfulDeserializationFailed),
            },
    {
    }

    /// A document without `accountId`, without `apiInfo` or without
    /// `authorizationToken` is not read as an authorization: under a success
    /// status it ends in `SuccessfulDeserializationFailed`.
    pub proof fn incomplete_authorization_gives_no_session<T>(
        http_client: H,
        reply: Reply,
        doc: Json,
    )
        requires
            is_success(reply.status),
            json_document(reply.body@) == Some(doc),
            doc.member("accountId"@) is None || doc.member("apiInfo"@) is None || doc.member(
                "authorizationToken"@,
            ) is None,
        ensures
            Self::of_exchange(http_client, Ok::<Reply, T>(reply)) == Err::<
                SessionView<H>,
                SessionErrorView,
            >(SessionErrorView::SuccessfulDeserializationFailed),
    {
    }

    /// Makes a session from the outcome of the authorization call, or says
    /// why there is none.
    pub fn from_outcome<T>(
        http_client: H,
        outcome: ApiResult<Response, ApiError, Failure<T>>,
    ) -> (r: Result<Session<H>, SessionError>)
        ensures
            attempt(r) == Self::of_outcome(http_client, outcome@),
    {
        match outcome {
            ApiResult::Response(ApiResponse::Success(authorization)) => Ok(
                Session { authorization, http_client },
            ),
            ApiResult::Response(ApiResponse::Error(error)) => Err(SessionError::from(error)),
            ApiResult::Failure(failure) => Err(SessionError::from(failure)),
        }
    }

    /// Makes a session from the exchange with the authorization endpoint,
    /// which the caller has carried out over `http_client` with the request
    /// that the configuration describes.
    ///
    /// There is a session exactly where the transport delivered a reply with
    /// a success status whose body is what an authorization returns. In every
    /// other case there is none, and the error tells the cases apart.
    pub fn try_new<T>(http_client: H, exchange: Result<Reply, T>) -> (r: Result<
        Session<H>,
        SessionError,
    >)
        ensures
            attempt(r) == Self::of_exchange(http_client, exchange),
    {
        Self::from_outcome(http_client, ApiResult::from_exchange(exchange))
    }

    /// The authorization token that every call of the session carries.
    pub fn token(&self) -> (token: &str)
        ensures
            token@ == self@.authorization.authorization_token,
    {
        self.authorization.authorization_token.as_str()
    }

    /// The identifier of the account that the session belongs to.
    pub fn account_id(&self) -> (account_id: &str)
        ensures
            account_id@ == self@.authorization.account_id,
    {
        self.authorization.account_id.as_str()
    }

    /// What the session may do with the B2 native API, and where to reach
    /// it.
    pub fn storage_api_info(&self) -> (info: &StorageApi)
        ensures
            info@ == self@.authorization.api_info.storage_api,
    {
        &self.authorization.api_info.storage_api
    }

    /// Everything that the authorization returned.
    pub fn authorization(&self) -> (authorization: &Response)
        ensures
            authorization@ == self@.authorization,
    {
        &self.authorization
    }

    /// The transport handle of the session.
    pub fn http_client(&self) -> (http_client: &H)
        ensures
            *http_client == self@.http_client,
    {
        &self.http_client
    }
}

} // verus!
