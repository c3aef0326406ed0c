use nxthdr::config::{CredentialStore, TokenStorage};
use nxthdr::error::Error;
use nxthdr::routes::{prefix_revoke_path, PREFIX_PATH, USER_INFO_PATH};
use nxthdr::status::{login_status, LoginStatus};

fn stored(expires_at: i64) -> CredentialStore {
    CredentialStore::Present(TokenStorage {
        access_token: "at".to_string(),
        refresh_token: "rt".to_string(),
        expires_at,
    })
}

#[test]
fn fixed_paths() {
    assert_eq!(USER_INFO_PATH, "/api/user/info");
    assert_eq!(PREFIX_PATH, "/api/user/prefix");
}

#[test]
fn prefix_is_encoded_as_one_segment() {
    assert_eq!(prefix_revoke_path("2001:db8::/48"), "/api/user/prefix/2001%3Adb8%3A%3A%2F48");
}

#[test]
fn unreserved_characters_stay() {
    assert_eq!(
        prefix_revoke_path("AZaz09-._~"),
        "/api/user/prefix/AZaz09-._~"
    );
    assert_eq!(prefix_revoke_path(""), "/api/user/prefix/");
}

#[test]
fn other_bytes_become_upper_case_hex() {
    assert_eq!(prefix_revoke_path(" "), "/api/user/prefix/%20");
    assert_eq!(prefix_revoke_path("%"), "/api/user/prefix/%25");
    assert_eq!(prefix_revoke_path("a+b"), "/api/user/prefix/a%2Bb");
    assert_eq!(prefix_revoke_path("\u{e9}"), "/api/user/prefix/%C3%A9");
    assert_eq!(prefix_revoke_path("\u{0}\u{7f}"), "/api/user/prefix/%00%7F");
    assert_eq!(prefix_revoke_path("@[`{"), "/api/user/prefix/%40%5B%60%7B");
    assert_eq!(prefix_revoke_path("/:"), "/api/user/prefix/%2F%3A");
}

#[test]
fn status_without_a_file_is_logged_out() {
    assert_eq!(login_status(&CredentialStore::Absent, 1_000), Ok(LoginStatus::LoggedOut));
    assert_eq!(
        login_status(&CredentialStore::Unavailable("no home directory".to_string()), 1_000),
        Ok(LoginStatus::LoggedOut)
    );
}

#[test]
fn status_of_a_bad_file_fails_as_loading_does() {
    assert_eq!(
        login_status(&CredentialStore::Corrupt("not json".to_string()), 1_000),
        Err(Error::CorruptCredential("not json".to_string()))
    );
    assert_eq!(
        login_status(&CredentialStore::Unreadable("permission denied".to_string()), 1_000),
        Err(Error::PersistenceError("permission denied".to_string()))
    );
}

#[test]
fn status_of_an_expired_credential() {
    assert_eq!(login_status(&stored(999), 1_000), Ok(LoginStatus::Expired));
    assert_eq!(login_status(&stored(i64::MIN), i64::MAX), Ok(LoginStatus::Expired));
}

#[test]
fn status_counts_hours_and_minutes() {
    assert_eq!(
        login_status(&stored(1_000), 1_000),
        Ok(LoginStatus::Valid { hours: 0, minutes: 0 })
    );
    assert_eq!(
        login_status(&stored(1_059), 1_000),
        Ok(LoginStatus::Valid { hours: 0, minutes: 0 })
    );
    assert_eq!(
        login_status(&stored(1_060), 1_000),
        Ok(LoginStatus::Valid { hours: 0, minutes: 1 })
    );
    assert_eq!(
        login_status(&stored(1_000 + 3_599), 1_000),
        Ok(LoginStatus::Valid { hours: 0, minutes: 59 })
    );
    assert_eq!(
        login_status(&stored(1_000 + 86_400), 1_000),
        Ok(LoginStatus::Valid { hours: 24, minutes: 0 })
    );
    assert_eq!(
        login_status(&stored(1_000 + 2 * 3_600 + 15 * 60 + 42), 1_000),
        Ok(LoginStatus::Valid { hours: 2, minutes: 15 })
    );
}

#[test]
fn status_survives_the_widest_span() {
    assert_eq!(
        login_status(&stored(i64::MAX), i64::MIN),
        Ok(LoginStatus::Valid { hours: 5_124_095_576_030_431, minutes: 0 })
    );
}
