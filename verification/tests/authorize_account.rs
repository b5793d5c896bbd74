use b2native::api::b2_authorize_account::{Capability, Request, Response};
use b2native::api::{
    ApiError, ApiErrorCode, ApiResponse, ApiResult, Credentials, Failure, Method, OutgoingRequest,
    Reply,
};
use b2native::config::Config;
use b2native::json::decode;
use b2native::{Session, SessionError};

const ACCEPTED: &str = r#"{"accountId":"ACCOUNT_ID","apiInfo":{"storageApi":{"absoluteMinimumPartSize":5000000,"apiUrl":"https://api001.example.com","bucketId":null,"bucketName":null,"capabilities":["listBuckets"],"downloadUrl":"https://f001.example.com","infoType":"storageApi","namePrefix":null,"recommendedPartSize":100000000,"s3ApiUrl":"https://s3.example.com"}},"applicationKeyExpirationTimestamp":null,"authorizationToken":"TOKEN"}"#;

fn reply(status: u16, body: &str) -> Result<Reply, &'static str> {
    Ok(Reply { status, body: body.as_bytes().to_vec() })
}

#[test]
fn deserialize_ok() {
    assert!(decode::<Response>(
        r#"
{
  "accountId": "ACCOUNT_ID",
  "apiInfo": {
    "storageApi": {
      "absoluteMinimumPartSize": 5000000,
      "apiUrl": "https://api001.backblazeb2.com",
      "bucketId": null,
      "bucketName": null,
      "capabilities": [
        "deleteFiles",
        "deleteKeys",
        "readBucketEncryption",
        "writeKeys",
        "writeBuckets",
        "writeBucketReplications",
        "readBucketReplications",
        "deleteBuckets",
        "readBuckets",
        "bypassGovernance",
        "readFileLegalHolds",
        "readFiles",
        "listAllBucketNames",
        "readBucketNotifications",
        "readBucketRetentions",
        "writeBucketRetentions",
        "writeFileLegalHolds",
        "shareFiles",
        "writeFiles",
        "listKeys",
        "listBuckets",
        "listFiles",
        "writeFileRetentions",
        "writeBucketEncryption",
        "writeBucketNotifications",
        "readFileRetentions"
      ],
      "downloadUrl": "https://f001.backblazeb2.com",
      "infoType": "storageApi",
      "namePrefix": null,
      "recommendedPartSize": 100000000,
      "s3ApiUrl": "https://s3.us-west-001.backblazeb2.com"
    },
    "groupsApi": {
      "capabilities": [
        "all"
      ],
      "groupsApiUrl": "https://apiNNN.backblazeb2.com",
      "infoType": "groupsApi"
    }
  },
  "applicationKeyExpirationTimestamp": null,
  "authorizationToken": "AUTHORIZATION_TOKEN"
}"#
        .as_bytes(),
    )
    .is_some());
}

#[test]
fn full_response_is_read_field_by_field() {
    let response = decode::<Response>(
        br#"{"accountId":"a1","apiInfo":{"storageApi":{"absoluteMinimumPartSize":5000000,
        "apiUrl":"https://api","bucketId":"b7","bucketName":"photos",
        "capabilities":["readFiles","writeFiles","somethingNew"],"downloadUrl":"https://dl",
        "infoType":"storageApi","namePrefix":"2024/","recommendedPartSize":100000000,
        "s3ApiUrl":"https://s3"},"groupsApi":{"capabilities":["all"],
        "groupsApiUrl":"https://groups","infoType":"groupsApi"}},
        "applicationKeyExpirationTimestamp":1700000000000,"authorizationToken":"t0"}"#,
    )
    .expect("the body has every member");
    assert_eq!(response.account_id, "a1");
    assert_eq!(response.authorization_token, "t0");
    assert_eq!(response.application_key_expiration_timestamp, Some(1700000000000));
    let storage = &response.api_info.storage_api;
    assert_eq!(storage.absolute_minimum_part_size, 5000000);
    assert_eq!(storage.recommended_part_size, 100000000);
    assert_eq!(storage.api_url, "https://api");
    assert_eq!(storage.download_url, "https://dl");
    assert_eq!(storage.s3_api_url, "https://s3");
    assert_eq!(storage.info_type, "storageApi");
    assert_eq!(storage.bucket_id.as_deref(), Some("b7"));
    assert_eq!(storage.bucket_name.as_deref(), Some("photos"));
    assert_eq!(storage.name_prefix.as_deref(), Some("2024/"));
    assert_eq!(
        storage.capabilities,
        vec![Capability::ReadFiles, Capability::WriteFiles, Capability::Other]
    );
    let groups = response.api_info.groups_api.as_ref().expect("the groups record is there");
    assert_eq!(groups.capabilities, vec!["all".to_string()]);
    assert_eq!(groups.groups_api_url, "https://groups");
    assert_eq!(groups.info_type, "groupsApi");
}

#[test]
fn accepted_credentials_give_a_session_with_the_token() {
    let session = Session::try_new((), reply(200, ACCEPTED)).expect("the server accepted");
    assert_eq!(session.token(), "TOKEN");
    assert_eq!(session.account_id(), "ACCOUNT_ID");
    let storage = session.storage_api_info();
    assert_eq!(storage.api_url, "https://api001.example.com");
    assert_eq!(storage.download_url, "https://f001.example.com");
    assert_eq!(storage.s3_api_url, "https://s3.example.com");
    assert_eq!(storage.absolute_minimum_part_size, 5000000);
    assert_eq!(storage.recommended_part_size, 100000000);
    assert_eq!(storage.bucket_id, None);
    assert_eq!(storage.bucket_name, None);
    assert_eq!(storage.name_prefix, None);
    assert_eq!(storage.capabilities, vec![Capability::ListBuckets]);
    assert!(session.authorization().api_info.groups_api.is_none());
    assert_eq!(session.authorization().application_key_expiration_timestamp, None);
}

#[test]
fn session_keeps_the_transport_handle() {
    let session = Session::try_new(42u8, reply(200, ACCEPTED)).expect("the server accepted");
    assert_eq!(*session.http_client(), 42);
}

#[test]
fn every_success_status_is_a_success() {
    for status in [200u16, 201, 204, 299] {
        assert!(Session::try_new((), reply(status, ACCEPTED)).is_ok(), "status {status}");
    }
}

#[test]
fn rejected_credentials_carry_code_and_message() {
    let outcome =
        Session::try_new((), reply(400, r#"{"status":400,"code":"bad_request","message":"x"}"#));
    assert_eq!(
        outcome.err(),
        Some(SessionError::AuthenticationRejected {
            code: ApiErrorCode::BadRequest,
            message: "x".to_string(),
        })
    );
}

#[test]
fn rejection_with_an_unknown_code_is_still_a_rejection() {
    let outcome = Session::try_new(
        (),
        reply(401, r#"{"status":401,"code":"unauthorized","message":"no such key"}"#),
    );
    assert_eq!(
        outcome.err(),
        Some(SessionError::AuthenticationRejected {
            code: ApiErrorCode::Other,
            message: "no such key".to_string(),
        })
    );
}

#[test]
fn success_status_with_missing_members_is_a_failed_deserialization() {
    let outcome = Session::try_new((), reply(200, r#"{"accountId":"ACCOUNT_ID"}"#));
    assert_eq!(outcome.err(), Some(SessionError::SuccessfulDeserializationFailed));
}

#[test]
fn each_required_member_is_required() {
    for member in [
        "accountId",
        "apiInfo",
        "authorizationToken",
        "storageApi",
        "absoluteMinimumPartSize",
        "apiUrl",
        "capabilities",
        "downloadUrl",
        "infoType",
        "recommendedPartSize",
        "s3ApiUrl",
    ] {
        let body = ACCEPTED.replacen(&format!("\"{member}\""), "\"renamed\"", 1);
        assert_ne!(body, ACCEPTED);
        let outcome = Session::try_new((), reply(200, &body));
        assert_eq!(
            outcome.err(),
            Some(SessionError::SuccessfulDeserializationFailed),
            "without {member}"
        );
    }
}

#[test]
fn optional_members_may_be_missing() {
    for member in ["bucketId", "bucketName", "namePrefix", "applicationKeyExpirationTimestamp"] {
        let body = ACCEPTED.replacen(&format!("\"{member}\""), "\"renamed\"", 1);
        assert_ne!(body, ACCEPTED);
        assert!(Session::try_new((), reply(200, &body)).is_ok(), "without {member}");
    }
}

#[test]
fn member_of_the_wrong_kind_is_a_failed_deserialization() {
    for (from, to) in [
        ("\"TOKEN\"", "17"),
        ("5000000", "\"5000000\""),
        ("5000000", "-5"),
        ("5000000", "5000000.5"),
        ("[\"listBuckets\"]", "\"listBuckets\""),
        ("[\"listBuckets\"]", "[1]"),
        ("\"bucketId\":null", "\"bucketId\":7"),
        ("\"applicationKeyExpirationTimestamp\":null", "\"applicationKeyExpirationTimestamp\":\"never\""),
    ] {
        let body = ACCEPTED.replacen(from, to, 1);
        assert_ne!(body, ACCEPTED);
        let outcome = Session::try_new((), reply(200, &body));
        assert_eq!(
            outcome.err(),
            Some(SessionError::SuccessfulDeserializationFailed),
            "{from} replaced by {to}"
        );
    }
}

#[test]
fn success_status_with_text_that_is_no_json_is_a_failed_deserialization() {
    for body in ["", "not json", "{", "{\"accountId\":", "[]", "null", "{} trailing"] {
        let outcome = Session::try_new((), reply(200, body));
        assert_eq!(
            outcome.err(),
            Some(SessionError::SuccessfulDeserializationFailed),
            "body {body:?}"
        );
    }
}

#[test]
fn success_status_with_an_error_body_is_a_failed_deserialization() {
    let outcome =
        Session::try_new((), reply(200, r#"{"status":400,"code":"bad_request","message":"x"}"#));
    assert_eq!(outcome.err(), Some(SessionError::SuccessfulDeserializationFailed));
}

#[test]
fn transport_failure_is_a_failed_request() {
    let outcome = Session::try_new((), Err::<Reply, _>("connection refused"));
    assert_eq!(outcome.err(), Some(SessionError::RequestFailed));
}

#[test]
fn malformed_error_body_is_not_a_rejection() {
    for body in [
        "",
        "<html>Bad Gateway</html>",
        "{}",
        r#"{"status":400,"code":"bad_request"}"#,
        r#"{"status":400,"message":"x"}"#,
        r#"{"code":"bad_request","message":"x"}"#,
        r#"{"status":"400","code":"bad_request","message":"x"}"#,
        r#"{"status":400,"code":7,"message":"x"}"#,
        r#"{"status":400,"code":"bad_request","message":null}"#,
    ] {
        let outcome = Session::try_new((), reply(502, body));
        assert_eq!(
            outcome.err(),
            Some(SessionError::ErrorDeserializationFailed),
            "body {body:?}"
        );
    }
}

#[test]
fn error_status_with_a_success_body_is_a_failed_deserialization() {
    let outcome = Session::try_new((), reply(500, ACCEPTED));
    assert_eq!(outcome.err(), Some(SessionError::ErrorDeserializationFailed));
}

#[test]
fn statuses_outside_the_success_class_ask_for_an_error_body() {
    for status in [100u16, 199, 300, 304, 400, 401, 403, 500, 503] {
        let outcome = Session::try_new((), reply(status, ACCEPTED));
        assert_eq!(
            outcome.err(),
            Some(SessionError::ErrorDeserializationFailed),
            "status {status}"
        );
    }
}

#[test]
fn outcome_of_a_reply_keeps_answers_and_failures_apart() {
    type Outcome = ApiResult<Response, ApiError, Failure<()>>;
    let error = ApiError { status: 400, code: ApiErrorCode::BadBucketId, message: "m".to_string() };
    let reply = Reply {
        status: 400,
        body: br#"{"status":400,"code":"bad_bucket_id","message":"m"}"#.to_vec(),
    };
    assert_eq!(Outcome::from(reply), ApiResult::Response(ApiResponse::Error(error)));
    let reply = Reply { status: 400, body: b"oops".to_vec() };
    assert_eq!(Outcome::from(reply), ApiResult::Failure(Failure::UnreadableError));
    let reply = Reply { status: 200, body: b"oops".to_vec() };
    assert_eq!(Outcome::from(reply), ApiResult::Failure(Failure::UnreadableResponse));
    assert_eq!(Outcome::from_exchange(Err(())), ApiResult::Failure(Failure::Transport(())));
}

#[test]
fn authorization_request_goes_to_the_configured_endpoint() {
    let credentials =
        Request { application_key_id: "key id".to_string(), application_key: "key".to_string() };
    let request = Config::default().request(&credentials);
    assert_eq!(request.method, Method::Get);
    assert_eq!(request.url, "https://api.backblazeb2.com/b2api/v3/b2_authorize_account");
    assert_eq!(
        request.credentials,
        Credentials::Basic { username: "key id".to_string(), password: "key".to_string() }
    );
    assert_eq!(request.body, None);

    let config = Config::new(Some("http://localhost:8080/authorize".to_string()));
    assert_eq!(config.request(&credentials).url, "http://localhost:8080/authorize");
    assert_eq!(Config::new(None), Config::default());
}

#[test]
fn status_member_is_a_size() {
    let with_status = |status: &str| {
        let body = format!("{{\"status\":{status},\"code\":\"bad_request\",\"message\":\"x\"}}");
        decode::<ApiError>(body.as_bytes()).map(|error| error.status)
    };
    assert_eq!(with_status("0"), Some(0));
    assert_eq!(with_status("400"), Some(400));
    assert_eq!(with_status("18446744073709551615"), usize::try_from(u64::MAX).ok());
    assert_eq!(with_status("18446744073709551616"), None);
    assert_eq!(with_status("-1"), None);
    assert_eq!(with_status("400.0"), None);
    assert_eq!(with_status("4e2"), None);
    assert_eq!(with_status("true"), None);
    assert_eq!(with_status("null"), None);
}

#[test]
fn body_that_is_nested_too_deeply_is_not_read() {
    let body = "[".repeat(100_000);
    let outcome = Session::try_new((), reply(200, &body));
    assert_eq!(outcome.err(), Some(SessionError::SuccessfulDeserializationFailed));
    let body = format!("{}{}", "[".repeat(5_000), "]".repeat(5_000));
    let outcome = Session::try_new((), reply(404, &body));
    assert_eq!(outcome.err(), Some(SessionError::ErrorDeserializationFailed));
}

#[test]
fn body_that_is_no_text_is_not_read() {
    let exchange: Result<Reply, ()> = Ok(Reply { status: 200, body: vec![0xff, 0xfe, 0x00] });
    assert_eq!(
        Session::try_new((), exchange).err(),
        Some(SessionError::SuccessfulDeserializationFailed)
    );
    let exchange: Result<Reply, ()> = Ok(Reply { status: 500, body: vec![b'"', 0xc3, b'"'] });
    assert_eq!(
        Session::try_new((), exchange).err(),
        Some(SessionError::ErrorDeserializationFailed)
    );
}

#[test]
fn members_that_are_not_asked_for_are_passed_over() {
    let body = ACCEPTED.replacen("{", "{\"extra\":{\"deep\":[1,2.5,-3,null,true,\"x\"]},", 1);
    let session = Session::try_new((), reply(200, &body)).expect("the server accepted");
    assert_eq!(session.token(), "TOKEN");
    let error = decode::<ApiError>(
        br#"{"status":403,"code":"bad_request","message":"m","retryAfter":5}"#,
    );
    assert_eq!(
        error,
        Some(ApiError { status: 403, code: ApiErrorCode::BadRequest, message: "m".to_string() })
    );
}

#[test]
fn whitespace_around_the_document_is_passed_over() {
    let body = format!(" \n\t{ACCEPTED}\r\n ");
    assert!(Session::try_new((), reply(200, &body)).is_ok());
}

#[test]
fn of_a_member_given_twice_the_last_one_counts() {
    let error = decode::<ApiError>(
        br#"{"status":400,"code":"bad_request","message":"first","message":"second"}"#,
    )
    .expect("the body has every member");
    assert_eq!(error.message, "second");
}

#[test]
fn strings_are_read_with_their_escapes_resolved() {
    let error = decode::<ApiError>(
        r#"{"status":400,"code":"bad_request","message":"a\"b\\c\nd\u00e9😀"}"#.as_bytes(),
    )
    .expect("the body has every member");
    assert_eq!(error.message, "a\"b\\c\nd\u{e9}\u{1f600}");
}
