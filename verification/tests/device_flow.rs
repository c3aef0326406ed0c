use nxthdr::auth::{
    get_audience, get_auth0_domain, get_client_id, start_device_flow, AuthConfig,
    DeviceCodeRequest, DeviceCodeResponse, TokenRequest,
};
use nxthdr::config::TokenStorage;
use nxthdr::error::Error;
use nxthdr::http::HttpOutcome;
use nxthdr::poll::{poll_for_token, accept_grant, PollAttempt, PollEvent, PollStep, TokenBody, TokenGrant};

const DEVICE_CODE: &str = "dev-code-123";
const CLIENT_ID: &str = "client-abc";
const INTERVAL: u64 = 7;

fn request() -> TokenRequest {
    TokenRequest {
        grant_type: "urn:ietf:params:oauth:grant-type:device_code".to_string(),
        device_code: DEVICE_CODE.to_string(),
        client_id: CLIENT_ID.to_string(),
    }
}

fn attempt(pauses: Vec<u64>) -> PollStep {
    PollStep::Attempt(PollAttempt { pauses, request: request() })
}

fn denial(status: u16, code: &str) -> PollEvent {
    PollEvent::Replied { status, body: TokenBody::Denial(code.to_string()), received_at: 1_000 }
}

fn grant(access: &str, refresh: Option<&str>, expires_in: u64, received_at: i64) -> PollEvent {
    PollEvent::Replied {
        status: 200,
        body: TokenBody::Grant(TokenGrant {
            access_token: access.to_string(),
            refresh_token: refresh.map(|r| r.to_string()),
            expires_in,
        }),
        received_at,
    }
}

fn step(event: PollEvent) -> PollStep {
    poll_for_token(DEVICE_CODE, INTERVAL, CLIENT_ID, event)
}

/// Plays the host: performs each attempt against the scripted answers and
/// records every sleep and every post, in order.
fn run(script: Vec<PollEvent>) -> (Vec<String>, PollStep) {
    let mut log = Vec::new();
    let mut answers = script.into_iter();
    let mut current = step(PollEvent::Started);
    loop {
        match current {
            PollStep::Attempt(attempt) => {
                for seconds in &attempt.pauses {
                    log.push(format!("sleep {}", seconds));
                }
                assert_eq!(attempt.request, request());
                log.push("post".to_string());
                match answers.next() {
                    Some(answer) => current = step(answer),
                    None => panic!("the script ran out of answers"),
                }
            }
            last => return (log, last),
        }
    }
}

#[test]
fn client_id_defaults_and_can_be_overridden() {
    assert_eq!(get_client_id(None), "45xjiornjC1JYGkgbBb9HX7l890rasTw");
    assert_eq!(get_client_id(Some("mine".to_string())), "mine");
    assert_eq!(get_client_id(Some(String::new())), "");
}

#[test]
fn audience_and_domain_are_fixed() {
    assert_eq!(get_audience(), "https://saimiris.nxthdr.dev");
    assert_eq!(get_auth0_domain(), "dev-zk3qmxl3o0m8lvk3.eu.auth0.com");
}

#[test]
fn config_builds_the_endpoints() {
    let config = AuthConfig::new(None);
    assert_eq!(config.client_id, "45xjiornjC1JYGkgbBb9HX7l890rasTw");
    assert_eq!(
        config.device_code_url(),
        "https://dev-zk3qmxl3o0m8lvk3.eu.auth0.com/oauth/device/code"
    );
    assert_eq!(config.token_url(), "https://dev-zk3qmxl3o0m8lvk3.eu.auth0.com/oauth/token");
    let config = AuthConfig {
        domain: "idp.example".to_string(),
        client_id: "c".to_string(),
        audience: "a".to_string(),
    };
    assert_eq!(config.device_code_url(), "https://idp.example/oauth/device/code");
    assert_eq!(config.token_url(), "https://idp.example/oauth/token");
}

#[test]
fn authorization_request_names_client_scope_and_audience() {
    let config = AuthConfig::new(Some("mine".to_string()));
    assert_eq!(
        config.device_code_request(),
        DeviceCodeRequest {
            client_id: "mine".to_string(),
            scope: "openid profile email offline_access".to_string(),
            audience: "https://saimiris.nxthdr.dev".to_string(),
        }
    );
}

fn authorization() -> DeviceCodeResponse {
    DeviceCodeResponse {
        device_code: DEVICE_CODE.to_string(),
        user_code: "ABCD-EFGH".to_string(),
        verification_uri: "https://idp.example/activate".to_string(),
        verification_uri_complete: "https://idp.example/activate?user_code=ABCD-EFGH".to_string(),
        interval: 5,
    }
}

#[test]
fn authorization_succeeds_on_a_decoded_success() {
    let outcome = HttpOutcome::Replied { status: 200, body: "{...}".to_string() };
    assert_eq!(start_device_flow(outcome, Ok(authorization())), Ok(authorization()));
}

#[test]
fn authorization_failure_status_is_a_provider_error() {
    let outcome = HttpOutcome::Replied { status: 403, body: "forbidden".to_string() };
    assert_eq!(
        start_device_flow(outcome, Err("expected value".to_string())),
        Err(Error::ProviderError { status: 403, body: "forbidden".to_string() })
    );
    let outcome = HttpOutcome::Replied { status: 500, body: String::new() };
    assert_eq!(
        start_device_flow(outcome, Ok(authorization())),
        Err(Error::ProviderError { status: 500, body: String::new() })
    );
}

#[test]
fn authorization_with_a_malformed_body_is_a_protocol_error() {
    let outcome = HttpOutcome::Replied { status: 200, body: "{}".to_string() };
    assert_eq!(
        start_device_flow(outcome, Err("missing field `device_code`".to_string())),
        Err(Error::ProtocolError("missing field `device_code`".to_string()))
    );
}

#[test]
fn authorization_without_an_answer_is_a_transport_error() {
    let outcome = HttpOutcome::Unreachable("connection refused".to_string());
    assert_eq!(
        start_device_flow(outcome, Err(String::new())),
        Err(Error::TransportError("connection refused".to_string()))
    );
}

#[test]
fn first_poll_sleeps_the_interval() {
    assert_eq!(step(PollEvent::Started), attempt(vec![INTERVAL]));
}

#[test]
fn pending_twice_then_success_polls_three_times() {
    let (log, last) = run(vec![
        denial(403, "authorization_pending"),
        denial(403, "authorization_pending"),
        grant("at-9", Some("rt-9"), 86_400, 1_700_000_000),
        denial(403, "access_denied"),
    ]);
    assert_eq!(log, vec!["sleep 7", "post", "sleep 7", "post", "sleep 7", "post"]);
    assert_eq!(
        last,
        PollStep::Granted(TokenStorage {
            access_token: "at-9".to_string(),
            refresh_token: "rt-9".to_string(),
            expires_at: 1_700_086_400,
        })
    );
}

#[test]
fn slow_down_adds_five_seconds_once() {
    assert_eq!(step(denial(429, "slow_down")), attempt(vec![5, INTERVAL]));
    let (log, last) = run(vec![
        denial(403, "authorization_pending"),
        denial(429, "slow_down"),
        denial(403, "authorization_pending"),
        grant("at", None, 60, 100),
    ]);
    assert_eq!(
        log,
        vec![
            "sleep 7", "post", "sleep 7", "post", "sleep 5", "sleep 7", "post", "sleep 7", "post"
        ]
    );
    assert_eq!(
        last,
        PollStep::Granted(TokenStorage {
            access_token: "at".to_string(),
            refresh_token: String::new(),
            expires_at: 160,
        })
    );
}

#[test]
fn access_denied_ends_the_loop() {
    let (log, last) = run(vec![
        denial(403, "access_denied"),
        grant("never", None, 60, 100),
    ]);
    assert_eq!(log, vec!["sleep 7", "post"]);
    assert_eq!(last, PollStep::Failed(Error::AuthenticationFailed("access_denied".to_string())));
}

#[test]
fn any_other_code_ends_the_loop() {
    for code in ["expired_token", "invalid_grant", "", "Authorization_Pending", "slow_down "] {
        assert_eq!(
            step(denial(400, code)),
            PollStep::Failed(Error::AuthenticationFailed(code.to_string()))
        );
    }
}

#[test]
fn missing_refresh_token_is_stored_empty() {
    assert_eq!(
        step(grant("at", None, 10, 5)),
        PollStep::Granted(TokenStorage {
            access_token: "at".to_string(),
            refresh_token: String::new(),
            expires_at: 15,
        })
    );
}

#[test]
fn expiry_counts_from_receipt() {
    assert_eq!(
        accept_grant(
            TokenGrant { access_token: "a".to_string(), refresh_token: None, expires_in: 0 },
            -3
        ),
        PollStep::Granted(TokenStorage {
            access_token: "a".to_string(),
            refresh_token: String::new(),
            expires_at: -3,
        })
    );
    assert_eq!(
        step(grant("a", Some("r"), u64::MAX, i64::MIN)),
        PollStep::Granted(TokenStorage {
            access_token: "a".to_string(),
            refresh_token: "r".to_string(),
            expires_at: i64::MAX,
        })
    );
    assert_eq!(
        step(grant("a", Some("r"), 1, i64::MAX - 1)),
        PollStep::Granted(TokenStorage {
            access_token: "a".to_string(),
            refresh_token: "r".to_string(),
            expires_at: i64::MAX,
        })
    );
}

#[test]
fn lifetime_past_the_last_second_is_a_protocol_error() {
    assert_eq!(
        step(grant("a", Some("r"), 1, i64::MAX)),
        PollStep::Failed(Error::ProtocolError("Token lifetime is out of range".to_string()))
    );
    assert_eq!(
        step(grant("a", Some("r"), u64::MAX, 0)),
        PollStep::Failed(Error::ProtocolError("Token lifetime is out of range".to_string()))
    );
}

#[test]
fn malformed_body_is_a_protocol_error() {
    for status in [200u16, 400] {
        let event = PollEvent::Replied {
            status,
            body: TokenBody::Malformed("expected value at line 1 column 1".to_string()),
            received_at: 0,
        };
        assert_eq!(
            step(event),
            PollStep::Failed(Error::ProtocolError("expected value at line 1 column 1".to_string()))
        );
    }
}

#[test]
fn body_that_does_not_go_with_its_status_is_a_protocol_error() {
    let mismatch =
        PollStep::Failed(Error::ProtocolError("Token response body does not match its status".to_string()));
    assert_eq!(step(denial(200, "authorization_pending")), mismatch);
    assert_eq!(step(denial(299, "slow_down")), mismatch);
    let event = PollEvent::Replied {
        status: 403,
        body: TokenBody::Grant(TokenGrant {
            access_token: "a".to_string(),
            refresh_token: None,
            expires_in: 1,
        }),
        received_at: 0,
    };
    assert_eq!(step(event), mismatch);
}

#[test]
fn poll_without_an_answer_is_a_transport_error() {
    assert_eq!(
        step(PollEvent::Unreachable("timed out".to_string())),
        PollStep::Failed(Error::TransportError("timed out".to_string()))
    );
}

#[test]
fn interval_of_zero_still_sleeps_before_polling() {
    assert_eq!(
        poll_for_token("d", 0, "c", PollEvent::Started),
        PollStep::Attempt(PollAttempt {
            pauses: vec![0],
            request: TokenRequest {
                grant_type: "urn:ietf:params:oauth:grant-type:device_code".to_string(),
                device_code: "d".to_string(),
                client_id: "c".to_string(),
            },
        })
    );
}
