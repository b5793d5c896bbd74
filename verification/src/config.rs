//! The settings of the library.

use crate::api::b2_authorize_account::{Request, Response};
use crate::api::{ApiError, Credentials, CredentialsView, HttpRequest, HttpRequestView, Method};
use crate::api::OutgoingRequest;
use vstd::prelude::*;

verus! {

/// The settings of the library. They are made once, when the program starts,
/// and handed to whatever needs them.
#[derive(Debug, PartialEq, Eq)]
pub struct Config {
    /// The URL to call for the `b2_authorize_account` endpoint.
    pub authorize_account_endpoint: String,
}

/// The URL of the `b2_authorize_account` endpoint where nothing overrides it.
pub open spec fn default_authorize_account_endpoint() -> Seq<char> {
    "https://api.backblazeb2.com/b2api/v3/b2_authorize_account"@
}

impl Default for Config {
    /// The settings with every value at its default.
    fn default() -> (config: Config)
        ensures
            config.authorize_account_endpoint@ == default_authorize_account_endpoint(),
    {
        let url = "https://api.backblazeb2.com/b2api/v3/b2_authorize_account";
        Config { authorize_account_endpoint: url.to_owned() }
    }
}

impl Config {
    /// The settings with the one value that can be overridden: the URL of the
    /// `b2_authorize_account` endpoint. Where no override is given the
    /// default stands.
    pub fn new(authorize_account_endpoint: Option<String>) -> (config: Config)
        ensures
            config.authorize_account_endpoint@ == match authorize_account_endpoint {
                Some(url) => url@,
                None => default_authorize_account_endpoint(),
            },
    {
        match authorize_account_endpoint {
            Some(url) => Config { authorize_account_endpoint: url },
            None => Config::default(),
        }
    }
}

impl OutgoingRequest<Request> for Config {
    type Response = Response;

    type Error = ApiError;

    /// The credentials go to the configured endpoint in a `GET` without a
    /// body, as the user name and the password of HTTP Basic authentication.
    open spec fn request_of(&self, body: &Request) -> HttpRequestView {
        HttpRequestView {
            method: Method::Get,
            url: self.authorize_account_endpoint@,
            credentials: CredentialsView::Basic {
                username: body.application_key_id@,
                password: body.application_key@,
            },
            body: None,
        }
    }

    fn request(&self, body: &Request) -> (r: HttpRequest) {
        HttpRequest {
            method: Method::Get,
            url: self.authorize_account_endpoint.clone(),
            credentials: Credentials::Basic {
                username: body.application_key_id.clone(),
                password: body.application_key.clone(),
            },
            body: None,
        }
    }
}

} // verus!
