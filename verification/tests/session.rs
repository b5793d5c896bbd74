use b2native::api::b2_authorize_account::{ApiInfo, Capability, Response, StorageApi};
use b2native::api::{ApiError, ApiErrorCode, ApiResponse, ApiResult, Failure};
use b2native::{Session, SessionError};

type Outcome = ApiResult<Response, ApiError, Failure<u8>>;

fn authorization() -> Response {
    Response {
        account_id: "account".to_string(),
        api_info: ApiInfo {
            groups_api: None,
            storage_api: StorageApi {
                absolute_minimum_part_size: 5,
                api_url: "https://api".to_string(),
                bucket_id: Some("bucket".to_string()),
                bucket_name: None,
                capabilities: vec![Capability::ReadFiles, Capability::Other],
                download_url: "https://download".to_string(),
                info_type: "storageApi".to_string(),
                name_prefix: Some("prefix/".to_string()),
                recommended_part_size: 100,
                s3_api_url: "https://s3".to_string(),
            },
        },
        authorization_token: "token".to_string(),
        application_key_expiration_timestamp: Some(17),
    }
}

#[test]
fn failure_of_the_transport_is_a_failed_request() {
    assert_eq!(SessionError::from(Failure::Transport("reset")), SessionError::RequestFailed);
    assert_eq!(SessionError::from(Failure::Transport(())), SessionError::RequestFailed);
}

#[test]
fn unreadable_bodies_are_told_apart_by_the_status_they_came_under() {
    assert_eq!(
        SessionError::from(Failure::<()>::UnreadableResponse),
        SessionError::SuccessfulDeserializationFailed
    );
    assert_eq!(
        SessionError::from(Failure::<()>::UnreadableError),
        SessionError::ErrorDeserializationFailed
    );
}

#[test]
fn error_of_the_server_is_a_rejection_with_its_code_and_message() {
    let error =
        ApiError { status: 401, code: ApiErrorCode::BadBucketId, message: "why".to_string() };
    assert_eq!(
        SessionError::from(error),
        SessionError::AuthenticationRejected {
            code: ApiErrorCode::BadBucketId,
            message: "why".to_string(),
        }
    );
}

#[test]
fn success_makes_a_session_that_holds_the_authorization() {
    let outcome: Outcome = ApiResult::Response(ApiResponse::Success(authorization()));
    let session = Session::from_outcome("handle", outcome).expect("the outcome is a success");
    assert_eq!(*session.authorization(), authorization());
    assert_eq!(session.token(), "token");
    assert_eq!(session.account_id(), "account");
    assert_eq!(*session.storage_api_info(), authorization().api_info.storage_api);
    assert_eq!(*session.http_client(), "handle");
}

#[test]
fn every_other_outcome_makes_no_session() {
    let error = ApiError { status: 400, code: ApiErrorCode::Other, message: "no".to_string() };
    let outcome: Outcome = ApiResult::Response(ApiResponse::Error(error));
    assert_eq!(
        Session::from_outcome((), outcome).err(),
        Some(SessionError::AuthenticationRejected {
            code: ApiErrorCode::Other,
            message: "no".to_string(),
        })
    );
    let outcome: Outcome = ApiResult::Failure(Failure::Transport(3));
    assert_eq!(Session::from_outcome((), outcome).err(), Some(SessionError::RequestFailed));
    let outcome: Outcome = ApiResult::Failure(Failure::UnreadableResponse);
    assert_eq!(
        Session::from_outcome((), outcome).err(),
        Some(SessionError::SuccessfulDeserializationFailed)
    );
    let outcome: Outcome = ApiResult::Failure(Failure::UnreadableError);
    assert_eq!(
        Session::from_outcome((), outcome).err(),
        Some(SessionError::ErrorDeserializationFailed)
    );
}
