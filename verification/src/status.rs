use vstd::prelude::*;
use crate::config::{CredentialStore, CredentialStoreView};
use crate::error::{Error, ErrorView};

verus! {

/// What the client can say of its login without asking anyone.
#[derive(Debug, Clone, Copy, PartialEq, Eq)]
pub enum LoginStatus {
    /// No credential file is there.
    LoggedOut,
    /// A credential is stored, and it has expired.
    Expired,
    /// A credential is stored and stays valid for this many whole hours and,
    /// beyond them, this many whole minutes.
    Valid { hours: i64, minutes: i64 },
}

/// The login status of `store` at time `now`.
///
/// A store without a credential file is logged out. A file that cannot be
/// read, or is no credential, fails as loading does. A credential that
/// expired before `now` is expired; any other is valid for the seconds from
/// `now` to its expiry, counted in whole hours and the whole minutes left
/// over.
pub open spec fn spec_login_status(store: CredentialStoreView, now: int) -> Result<
    LoginStatus,
    ErrorView,
> {
    match store {
        CredentialStoreView::Unavailable(_) => Ok(LoginStatus::LoggedOut),
        CredentialStoreView::Absent => Ok(LoginStatus::LoggedOut),
        CredentialStoreView::Unreadable(why) => Err(ErrorView::PersistenceError(why)),
        CredentialStoreView::Corrupt(why) => Err(ErrorView::CorruptCredential(why)),
        CredentialStoreView::Present(tokens) => if tokens.expires_at < now {
            Ok(LoginStatus::Expired)
        } else {
            Ok(
                LoginStatus::Valid {
                    hours: ((tokens.expires_at - now) / 3600) as i64,
                    minutes: (((tokens.expires_at - now) % 3600) / 60) as i64,
                },
            )
        },
    }
}

/// The view of a `Result` over a login status.
pub open spec fn status_view(r: Result<LoginStatus, Error>) -> Result<LoginStatus, ErrorView> {
    match r {
        Ok(status) => Ok(status),
        Err(error) => Err(error@),
    }
}

/// Reports the login status of `store` at `now`, a Unix time in seconds:
/// see [`spec_login_status`]. Changes nothing: an expired credential stays
/// until a call passes the guard.
pub fn login_status(store: &CredentialStore, now: i64) -> (r: Result<LoginStatus, Error>)
    ensures
        status_view(r) == spec_login_status(store@, now as int),
        r matches Ok(LoginStatus::Valid { hours, minutes }) ==> 0 <= hours && 0 <= minutes < 60,
{
    match store {
        CredentialStore::Unavailable(_) => Ok(LoginStatus::LoggedOut),
        CredentialStore::Absent => Ok(LoginStatus::LoggedOut),
        CredentialStore::Unreadable(why) => Err(Error::PersistenceError(why.clone())),
        CredentialStore::Corrupt(why) => Err(Error::CorruptCredential(why.clone())),
        CredentialStore::Present(tokens) => {
            if tokens.expires_at < now {
                Ok(LoginStatus::Expired)
            } else {
                let remaining: i128 = tokens.expires_at as i128 - now as i128;
                let hours: i128 = remaining / 3600;
                let minutes: i128 = (remaining % 3600) / 60;
                Ok(LoginStatus::Valid { hours: hours as i64, minutes: minutes as i64 })
            }
        },
    }
}

} // verus!
