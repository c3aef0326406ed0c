use vstd::prelude::*;
use vstd::string::StringExecFns;
use crate::config::{
    spec_exists, spec_load, CredentialStore, CredentialStoreView, TokenStorageView,
};
use crate::error::{Error, ErrorView};
use crate::http::{is_success, status_is_success, HttpOutcome};

verus! {

/// Address of the remote API, unless the host overrides it.
pub const DEFAULT_API_BASE_URL: &'static str = "https://peerlab.nxthdr.dev";

/// What stands in the `Authorization` header before the token.
pub const BEARER_PREFIX: &'static str = "Bearer ";

/// What asking `store` for a usable access token at time `now` gives: the
/// stored access token, unless loading fails, which fails the same way, or
/// the credential expired before `now`, which is `TokenExpired`.
pub open spec fn spec_valid_token(store: CredentialStoreView, now: int) -> Result<
    Seq<char>,
    ErrorView,
> {
    match spec_load(store) {
        Err(error) => Err(error),
        Ok(tokens) => if tokens.expires_at < now {
            Err(ErrorView::TokenExpired)
        } else {
            Ok(tokens.access_token)
        },
    }
}

/// The store after it was asked for a usable access token at time `now`:
/// emptied if it held a credential that expired before `now`, else as it
/// was.
pub open spec fn spec_store_after_guard(store: CredentialStoreView, now: int) -> CredentialStoreView {
    match store {
        CredentialStoreView::Present(tokens) => if tokens.expires_at < now {
            CredentialStoreView::Absent
        } else {
            store
        },
        _ => store,
    }
}

/// The view of a `Result` over a text.
pub open spec fn text_view(r: Result<String, Error>) -> Result<Seq<char>, ErrorView> {
    match r {
        Ok(text) => Ok(text@),
        Err(error) => Err(error@),
    }
}

/// The guard that every authenticated call passes: gives the stored access
/// token if the store holds a credential that has not expired at `now`, a
/// Unix time in seconds.
///
/// Without a credential it fails as loading does, with `NotAuthenticated`
/// where none is stored. A credential that expired before `now` is removed
/// from the store, so that the next call finds none, and the call fails with
/// `TokenExpired`. In every other case the store stays as it was.
pub fn get_valid_token(store: &mut CredentialStore, now: i64) -> (r: Result<String, Error>)
    ensures
        text_view(r) == spec_valid_token(old(store)@, now as int),
        final(store)@ == spec_store_after_guard(old(store)@, now as int),
{
    match store {
        CredentialStore::Unavailable(why) => Err(Error::PersistenceError(why.clone())),
        CredentialStore::Absent => Err(Error::NotAuthenticated),
        CredentialStore::Unreadable(why) => Err(Error::PersistenceError(why.clone())),
        CredentialStore::Corrupt(why) => Err(Error::CorruptCredential(why.clone())),
        CredentialStore::Present(tokens) => {
            if tokens.expires_at < now {
                *store = CredentialStore::Absent;
                Err(Error::TokenExpired)
            } else {
                Ok(tokens.access_token.clone())
            }
        },
    }
}

/// The three kinds of call that the remote API takes.
#[derive(Debug, Clone, Copy, PartialEq, Eq)]
pub enum Method {
    Get,
    Post,
    Delete,
}

/// One authenticated request, ready for the host to send: the method, the
/// full address, the value of the `Authorization` header, and the JSON body
/// where there is one.
#[derive(Debug, Clone, PartialEq, Eq)]
pub struct ApiRequest {
    pub method: Method,
    pub url: String,
    pub authorization: String,
    pub body: Option<String>,
}

/// An [`ApiRequest`] as mathematical values.
pub struct ApiRequestView {
    pub method: Method,
    pub url: Seq<char>,
    pub authorization: Seq<char>,
    pub body: Option<Seq<char>>,
}

impl View for ApiRequest {
    type V = ApiRequestView;

    open spec fn view(&self) -> ApiRequestView {
        ApiRequestView {
            method: self.method,
            url: self.url@,
            authorization: self.authorization@,
            body: match self.body {
                Some(text) => Some(text@),
                None => None,
            },
        }
    }
}

/// The view of a `Result` over a request.
pub open spec fn request_view(r: Result<ApiRequest, Error>) -> Result<ApiRequestView, ErrorView> {
    match r {
        Ok(request) => Ok(request@),
        Err(error) => Err(error@),
    }
}

/// What preparing a call of `method` on `path`, with `body`, against the API
/// at `base_url` gives at time `now`: the failure of the guard where the guard
/// fails, and else the request to `base_url` followed by `path` that
/// carries the guard's token as a bearer token.
pub open spec fn spec_request(
    base_url: Seq<char>,
    method: Method,
    path: Seq<char>,
    body: Option<Seq<char>>,
    store: CredentialStoreView,
    now: int,
) -> Result<ApiRequestView, ErrorView> {
    match spec_valid_token(store, now) {
        Err(error) => Err(error),
        Ok(token) => Ok(
            ApiRequestView {
                method,
                url: base_url + path,
                authorization: BEARER_PREFIX@ + token,
                body,
            },
        ),
    }
}

/// The client of the remote API: knows where the API is, and prepares no
/// request without a valid token.
#[derive(Debug, Clone, PartialEq, Eq)]
pub struct ApiClient {
    base_url: String,
}

impl View for ApiClient {
    type V = Seq<char>;

    /// The address that every path is appended to.
    closed spec fn view(&self) -> Seq<char> {
        self.base_url@
    }
}

impl ApiClient {
    /// A client for the API at the host's override, where it gave one, and
    /// else at [`DEFAULT_API_BASE_URL`].
    pub fn new(base_url_override: Option<String>) -> (client: ApiClient)
        ensures
            client@ == match base_url_override {
                Some(given) => given@,
                None => DEFAULT_API_BASE_URL@,
            },
    {
        match base_url_override {
            Some(given) => ApiClient { base_url: given },
            None => ApiClient { base_url: String::from_str(DEFAULT_API_BASE_URL) },
        }
    }

    /// The address that every path is appended to.
    pub fn base_url(&self) -> (url: &str)
        ensures
            url@ == self@,
    {
        self.base_url.as_str()
    }

    fn prepare(
        &self,
        method: Method,
        path: &str,
        body: Option<String>,
        store: &mut CredentialStore,
        now: i64,
    ) -> (r: Result<ApiRequest, Error>)
        ensures
            request_view(r) == spec_request(
                self@,
                method,
                path@,
                match body {
                    Some(text) => Some(text@),
                    None => None,
                },
                old(store)@,
                now as int,
            ),
            final(store)@ == spec_store_after_guard(old(store)@, now as int),
    {
        match get_valid_token(store, now) {
            Err(error) => Err(error),
            Ok(token) => Ok(
                ApiRequest {
                    method,
                    url: self.base_url.clone().concat(path),
                    authorization: String::from_str(BEARER_PREFIX).concat(token.as_str()),
                    body,
                },
            ),
        }
    }

    /// Prepares a `GET` of `path`. Passes the guard first, as
    /// [`get_valid_token`] at `now`: where the guard fails, so does this, with
    /// the same error and no request.
    pub fn get(&self, store: &mut CredentialStore, now: i64, path: &str) -> (r: Result<
        ApiRequest,
        Error,
    >)
        ensures
            request_view(r) == spec_request(
                self@,
                Method::Get,
                path@,
                None,
                old(store)@,
                now as int,
            ),
            final(store)@ == spec_store_after_guard(old(store)@, now as int),
    {
        self.prepare(Method::Get, path, None, store, now)
    }

    /// Prepares a `POST` of the JSON text `body` to `path`. Passes the guard
    /// first, as [`ApiClient::get`] does.
    pub fn post(&self, store: &mut CredentialStore, now: i64, path: &str, body: String) -> (r:
        Result<ApiRequest, Error>)
        ensures
            request_view(r) == spec_request(
                self@,
                Method::Post,
                path@,
                Some(body@),
                old(store)@,
                now as int,
            ),
            final(store)@ == spec_store_after_guard(old(store)@, now as int),
    {
        self.prepare(Method::Post, path, Some(body), store, now)
    }

    /// Prepares a `DELETE` of `path`. Passes the guard first, as
    /// [`ApiClient::get`] does.
    pub fn delete(&self, store: &mut CredentialStore, now: i64, path: &str) -> (r: Result<
        ApiRequest,
        Error,
    >)
        ensures
            request_view(r) == spec_request(
                self@,
                Method::Delete,
                path@,
                None,
                old(store)@,
                now as int,
            ),
            final(store)@ == spec_store_after_guard(old(store)@, now as int),
    {
        self.prepare(Method::Delete, path, None, store, now)
    }
}

/// Reads what came of an authenticated request: the body of an answer with
/// a status in 200-299, `ApiError` with status and body for an answer with
/// any other status, whichever it is, and `TransportError` where no answer
/// came.
pub fn accept_reply(outcome: HttpOutcome) -> (r: Result<String, Error>)
    ensures
        match outcome {
            HttpOutcome::Unreachable(why) => r == Err::<String, Error>(Error::TransportError(why)),
            HttpOutcome::Replied { status, body } => if is_success(status) {
                r == Ok::<String, Error>(body)
            } else {
                r == Err::<String, Error>(Error::ApiError { status, body })
            },
        },
{
    match outcome {
        HttpOutcome::Unreachable(why) => Err(Error::TransportError(why)),
        HttpOutcome::Replied { status, body } => {
            if status_is_success(status) {
                Ok(body)
            } else {
                Err(Error::ApiError { status, body })
            }
        },
    }
}

/// Concludes a call whose body the host decoded into the shape that the
/// caller asked for: the decoded value, or `ResponseDecodeError` with the
/// decoder's complaint where the body did not fit.
pub fn decoded<T>(parsed: Result<T, String>) -> (r: Result<T, Error>)
    ensures
        match parsed {
            Ok(value) => r == Ok::<T, Error>(value),
            Err(why) => r == Err::<T, Error>(Error::ResponseDecodeError(why)),
        },
{
    match parsed {
        Ok(value) => Ok(value),
        Err(why) => Err(Error::ResponseDecodeError(why)),
    }
}

/// A stored credential that expired before `now` heals itself: the guard
/// fails with `TokenExpired` and leaves a store in which no credential file
/// exists, so that the guard fails with `NotAuthenticated` from then on, at
/// whatever time it is asked.
pub proof fn lemma_expiry_self_heals(tokens: TokenStorageView, now: int, later: int)
    requires
        tokens.expires_at < now,
    ensures
        spec_valid_token(CredentialStoreView::Present(tokens), now) == Err::<Seq<char>, ErrorView>(
            ErrorView::TokenExpired,
        ),
        !spec_exists(spec_store_after_guard(CredentialStoreView::Present(tokens), now)),
        spec_valid_token(spec_store_after_guard(CredentialStoreView::Present(tokens), now), later)
            == Err::<Seq<char>, ErrorView>(ErrorView::NotAuthenticated),
{
}

/// With no credential file the guard fails with `NotAuthenticated`, the
/// store stays empty, and no request is prepared, whatever the call.
pub proof fn lemma_missing_credential_fails(
    base_url: Seq<char>,
    method: Method,
    path: Seq<char>,
    body: Option<Seq<char>>,
    now: int,
)
    ensures
        spec_valid_token(CredentialStoreView::Absent, now) == Err::<Seq<char>, ErrorView>(
            ErrorView::NotAuthenticated,
        ),
        spec_store_after_guard(CredentialStoreView::Absent, now) == CredentialStoreView::Absent,
        spec_request(base_url, method, path, body, CredentialStoreView::Absent, now) == Err::<
            ApiRequestView,
            ErrorView,
        >(ErrorView::NotAuthenticated),
{
}

/// Every authenticated call is guarded: a request is prepared exactly when
/// the guard gives a token, it carries that token, and where the guard fails
/// the call fails with the guard's error. A guard that does not fail leaves
/// the store as it was.
pub proof fn lemma_calls_are_guarded(
    base_url: Seq<char>,
    method: Method,
    path: Seq<char>,
    body: Option<Seq<char>>,
    store: CredentialStoreView,
    now: int,
)
    ensures
        spec_request(base_url, method, path, body, store, now) is Ok <==> spec_valid_token(
            store,
            now,
        ) is Ok,
        spec_valid_token(store, now) matches Err(error) ==> spec_request(
            base_url,
            method,
            path,
            body,
            store,
            now,
        ) == Err::<ApiRequestView, ErrorView>(error),
        spec_valid_token(store, now) matches Ok(token) ==> {
            &&& spec_request(base_url, method, path, body, store, now)->Ok_0.authorization
                == BEARER_PREFIX@ + token
            &&& spec_store_after_guard(store, now) == store
        },
{
}

} // verus!
