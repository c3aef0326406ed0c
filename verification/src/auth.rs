use vstd::prelude::*;
use vstd::string::StringExecFns;
use crate::error::Error;
use crate::http::{is_success, status_is_success, HttpOutcome};

verus! {

/// Host name of the identity provider.
pub const AUTH0_DOMAIN: &'static str = "dev-zk3qmxl3o0m8lvk3.eu.auth0.com";

/// Resource identifier of the API that the tokens are asked for.
pub const AUDIENCE: &'static str = "https://saimiris.nxthdr.dev";

/// Client identifier of this application, unless the host overrides it.
pub const DEFAULT_CLIENT_ID: &'static str = "45xjiornjC1JYGkgbBb9HX7l890rasTw";

/// Scopes asked of the identity provider.
pub const SCOPE: &'static str = "openid profile email offline_access";

/// Grant type of the device flow's token request.
pub const DEVICE_GRANT_TYPE: &'static str = "urn:ietf:params:oauth:grant-type:device_code";

/// Error code by which the provider says that the user has not finished yet.
pub const AUTHORIZATION_PENDING: &'static str = "authorization_pending";

/// Error code by which the provider asks for slower polling.
pub const SLOW_DOWN: &'static str = "slow_down";

/// Seconds of extra pause after a `slow_down` answer.
pub const SLOW_DOWN_PAUSE: u64 = 5;

/// The client identifier: the host's override where it gave one, else
/// [`DEFAULT_CLIENT_ID`].
pub fn get_client_id(client_id_override: Option<String>) -> (id: String)
    ensures
        id@ == match client_id_override {
            Some(given) => given@,
            None => DEFAULT_CLIENT_ID@,
        },
{
    match client_id_override {
        Some(given) => given,
        None => String::from_str(DEFAULT_CLIENT_ID),
    }
}

/// The audience of the tokens: [`AUDIENCE`].
pub fn get_audience() -> (audience: String)
    ensures
        audience@ == AUDIENCE@,
{
    String::from_str(AUDIENCE)
}

/// The identity provider's host name: [`AUTH0_DOMAIN`].
pub fn get_auth0_domain() -> (domain: String)
    ensures
        domain@ == AUTH0_DOMAIN@,
{
    String::from_str(AUTH0_DOMAIN)
}

/// What the client needs to know of the identity provider. Built once, when
/// the program starts, and handed by reference to what needs it.
#[derive(Debug, Clone, PartialEq, Eq)]
pub struct AuthConfig {
    pub domain: String,
    pub client_id: String,
    pub audience: String,
}

impl AuthConfig {
    /// The fixed provider and audience, with the client identifier that
    /// [`get_client_id`] gives for `client_id_override`.
    pub fn new(client_id_override: Option<String>) -> (config: AuthConfig)
        ensures
            config.domain@ == AUTH0_DOMAIN@,
            config.audience@ == AUDIENCE@,
            config.client_id@ == match client_id_override {
                Some(given) => given@,
                None => DEFAULT_CLIENT_ID@,
            },
    {
        AuthConfig {
            domain: get_auth0_domain(),
            client_id: get_client_id(client_id_override),
            audience: get_audience(),
        }
    }

    /// Address of the provider's device-code endpoint.
    pub fn device_code_url(&self) -> (url: String)
        ensures
            url@ == "https://"@ + self.domain@ + "/oauth/device/code"@,
    {
        String::from_str("https://").concat(self.domain.as_str()).concat("/oauth/device/code")
    }

    /// Address of the provider's token endpoint.
    pub fn token_url(&self) -> (url: String)
        ensures
            url@ == "https://"@ + self.domain@ + "/oauth/token"@,
    {
        String::from_str("https://").concat(self.domain.as_str()).concat("/oauth/token")
    }

    /// Body of the authorization request: this client, the fixed scopes and
    /// the configured audience.
    pub fn device_code_request(&self) -> (request: DeviceCodeRequest)
        ensures
            request.client_id@ == self.client_id@,
            request.scope@ == SCOPE@,
            request.audience@ == self.audience@,
    {
        DeviceCodeRequest {
            client_id: self.client_id.clone(),
            scope: String::from_str(SCOPE),
            audience: self.audience.clone(),
        }
    }
}

/// Body of the request that opens a device flow.
#[derive(Debug, Clone, PartialEq, Eq)]
pub struct DeviceCodeRequest {
    pub client_id: String,
    pub scope: String,
    pub audience: String,
}

/// What the provider hands out when a device flow opens: the code to poll
/// with, the code and addresses to show the user, and the seconds to wait
/// between polls.
#[derive(Debug, Clone, PartialEq, Eq)]
pub struct DeviceCodeResponse {
    pub device_code: String,
    pub user_code: String,
    pub verification_uri: String,
    pub verification_uri_complete: String,
    pub interval: u64,
}

/// Body of one poll of the token endpoint.
#[derive(Debug, Clone, PartialEq, Eq)]
pub struct TokenRequest {
    pub grant_type: String,
    pub device_code: String,
    pub client_id: String,
}


/// Concludes the authorization request from what came back and what the
/// host decoded of it.
///
/// No answer is a `TransportError`. An answer with a status outside 200-299
/// is a `ProviderError` with that status and body, whatever was decoded. A
/// successful answer gives the decoded authorization, or a `ProtocolError`
/// with the decoder's complaint where the body was not one.
pub fn start_device_flow(
    outcome: HttpOutcome,
    decoded: Result<DeviceCodeResponse, String>,
) -> (r: Result<DeviceCodeResponse, Error>)
    ensures
        match outcome {
            HttpOutcome::Unreachable(why) => r == Err::<DeviceCodeResponse, Error>(
                Error::TransportError(why),
            ),
            HttpOutcome::Replied { status, body } => if !is_success(status) {
                r == Err::<DeviceCodeResponse, Error>(Error::ProviderError { status, body })
            } else {
                match decoded {
                    Ok(authorization) => r == Ok::<DeviceCodeResponse, Error>(authorization),
                    Err(why) => r == Err::<DeviceCodeResponse, Error>(Error::ProtocolError(why)),
                }
            },
        },
{
    match outcome {
        HttpOutcome::Unreachable(why) => Err(Error::TransportError(why)),
        HttpOutcome::Replied { status, body } => {
            if !status_is_success(status) {
                Err(Error::ProviderError { status, body })
            } else {
                match decoded {
                    Ok(authorization) => Ok(authorization),
                    Err(why) => Err(Error::ProtocolError(why)),
                }
            }
        },
    }
}

} // verus!
