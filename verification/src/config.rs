use vstd::prelude::*;
use vstd::string::StringExecFns;
use crate::error::{Error, ErrorView};

verus! {

/// Qualifier, organization and application under which the platform's
/// per-user configuration directory is looked up.
pub const PROJECT_QUALIFIER: &'static str = "dev";

pub const PROJECT_ORGANIZATION: &'static str = "nxthdr";

pub const PROJECT_APPLICATION: &'static str = "nxthdr";

/// Name of the credential file inside the configuration directory.
pub const TOKEN_FILE_NAME: &'static str = "tokens.json";

/// The persisted secret record: a bearer token, the refresh token that came
/// with it, and the Unix time in seconds after which the bearer token must
/// be treated as invalid.
#[derive(Debug, PartialEq, Eq)]
pub struct TokenStorage {
    pub access_token: String,
    pub refresh_token: String,
    pub expires_at: i64,
}

/// A [`TokenStorage`] as mathematical values.
pub struct TokenStorageView {
    pub access_token: Seq<char>,
    pub refresh_token: Seq<char>,
    pub expires_at: int,
}

impl View for TokenStorage {
    type V = TokenStorageView;

    open spec fn view(&self) -> TokenStorageView {
        TokenStorageView {
            access_token: self.access_token@,
            refresh_token: self.refresh_token@,
            expires_at: self.expires_at as int,
        }
    }
}

impl Clone for TokenStorage {
    fn clone(&self) -> (copy: TokenStorage)
        ensures
            copy@ == self@,
    {
        TokenStorage {
            access_token: self.access_token.clone(),
            refresh_token: self.refresh_token.clone(),
            expires_at: self.expires_at,
        }
    }
}

/// Where the credential file lives: a directory and a file name in it.
#[derive(Debug, Clone, PartialEq, Eq)]
pub struct TokenPath {
    pub dir: String,
    pub file_name: String,
}

/// The single slot that holds the credential, as the host found it on disk
/// and as the operations below leave it for the host to write back.
///
/// The last writer wins: nothing here keeps two programs from working on
/// the same file, so one program at a time is to use it.
#[derive(Debug, Clone, PartialEq, Eq)]
pub enum CredentialStore {
    /// The configuration directory could not be determined or created.
    Unavailable(String),
    /// The directory is there and holds no credential file.
    Absent,
    /// The credential file is there and could not be read.
    Unreadable(String),
    /// The credential file was read and is not a credential.
    Corrupt(String),
    /// The credential file holds this credential.
    Present(TokenStorage),
}

/// A [`CredentialStore`] as mathematical values.
pub enum CredentialStoreView {
    Unavailable(Seq<char>),
    Absent,
    Unreadable(Seq<char>),
    Corrupt(Seq<char>),
    Present(TokenStorageView),
}

impl View for CredentialStore {
    type V = CredentialStoreView;

    open spec fn view(&self) -> CredentialStoreView {
        match *self {
            CredentialStore::Unavailable(m) => CredentialStoreView::Unavailable(m@),
            CredentialStore::Absent => CredentialStoreView::Absent,
            CredentialStore::Unreadable(m) => CredentialStoreView::Unreadable(m@),
            CredentialStore::Corrupt(m) => CredentialStoreView::Corrupt(m@),
            CredentialStore::Present(t) => CredentialStoreView::Present(t@),
        }
    }
}

/// Whether a credential file is there, whatever it holds. A store whose
/// directory is unavailable counts as holding none.
pub open spec fn spec_exists(store: CredentialStoreView) -> bool {
    store is Unreadable || store is Corrupt || store is Present
}

/// What loading from `store` gives: the credential, or the reason there is
/// none to give.
pub open spec fn spec_load(store: CredentialStoreView) -> Result<TokenStorageView, ErrorView> {
    match store {
        CredentialStoreView::Unavailable(m) => Err(ErrorView::PersistenceError(m)),
        CredentialStoreView::Absent => Err(ErrorView::NotAuthenticated),
        CredentialStoreView::Unreadable(m) => Err(ErrorView::PersistenceError(m)),
        CredentialStoreView::Corrupt(m) => Err(ErrorView::CorruptCredential(m)),
        CredentialStoreView::Present(t) => Ok(t),
    }
}

/// How writing to `store` ends, by saving or by deleting: well, unless the
/// directory is unavailable, which is a `PersistenceError`.
pub open spec fn spec_write(store: CredentialStoreView) -> Result<(), ErrorView> {
    match store {
        CredentialStoreView::Unavailable(m) => Err(ErrorView::PersistenceError(m)),
        _ => Ok(()),
    }
}

/// The store after `tokens` were saved to `store`: holding `tokens`, unless
/// the directory is unavailable, which changes nothing.
pub open spec fn spec_store_after_save(
    store: CredentialStoreView,
    tokens: TokenStorageView,
) -> CredentialStoreView {
    match store {
        CredentialStoreView::Unavailable(_) => store,
        _ => CredentialStoreView::Present(tokens),
    }
}

/// The store after the credential was deleted from `store`: holding no
/// file, unless the directory is unavailable, which changes nothing.
pub open spec fn spec_store_after_delete(store: CredentialStoreView) -> CredentialStoreView {
    match store {
        CredentialStoreView::Unavailable(_) => store,
        _ => CredentialStoreView::Absent,
    }
}

/// The view of a `Result` over a credential.
pub open spec fn loaded_view(r: Result<TokenStorage, Error>) -> Result<TokenStorageView, ErrorView> {
    match r {
        Ok(t) => Ok(t@),
        Err(e) => Err(e@),
    }
}

/// The view of a `Result` that carries nothing on success.
pub open spec fn done_view(r: Result<(), Error>) -> Result<(), ErrorView> {
    match r {
        Ok(()) => Ok(()),
        Err(e) => Err(e@),
    }
}

/// The configuration directory, given what the platform lookup returned:
/// that directory, or a `PersistenceError` where the lookup found none.
pub fn get_config_dir(platform_dir: Option<String>) -> (r: Result<String, Error>)
    ensures
        match platform_dir {
            Some(dir) => r == Ok::<String, Error>(dir),
            None => r is Err && r->Err_0@ == ErrorView::PersistenceError(
                "Failed to determine config directory"@,
            ),
        },
{
    match platform_dir {
        Some(dir) => Ok(dir),
        None => Err(
            Error::PersistenceError(String::from_str("Failed to determine config directory")),
        ),
    }
}

/// The place of the credential file: [`TOKEN_FILE_NAME`] inside the
/// configuration directory. Fails as [`get_config_dir`] does.
pub fn get_token_path(platform_dir: Option<String>) -> (r: Result<TokenPath, Error>)
    ensures
        match platform_dir {
            Some(dir) => r is Ok && r->Ok_0.dir == dir && r->Ok_0.file_name@
                == TOKEN_FILE_NAME@,
            None => r is Err && r->Err_0@ == ErrorView::PersistenceError(
                "Failed to determine config directory"@,
            ),
        },
{
    match get_config_dir(platform_dir) {
        Ok(dir) => Ok(TokenPath { dir, file_name: String::from_str(TOKEN_FILE_NAME) }),
        Err(e) => Err(e),
    }
}

/// Stores `tokens`, replacing whatever the slot held. Fails with
/// `PersistenceError`, and changes nothing, exactly when the directory is
/// unavailable.
pub fn save_tokens(store: &mut CredentialStore, tokens: &TokenStorage) -> (r: Result<(), Error>)
    ensures
        done_view(r) == spec_write(old(store)@),
        final(store)@ == spec_store_after_save(old(store)@, tokens@),
{
    match store {
        CredentialStore::Unavailable(m) => Err(Error::PersistenceError(m.clone())),
        _ => {
            *store = CredentialStore::Present(tokens.clone());
            Ok(())
        },
    }
}

/// Reads the stored credential. Fails with `NotAuthenticated` when no file
/// is there, with `PersistenceError` when the file or its directory cannot be
/// read, and with `CorruptCredential` when the file is not a credential.
pub fn load_tokens(store: &CredentialStore) -> (r: Result<TokenStorage, Error>)
    ensures
        loaded_view(r) == spec_load(store@),
{
    match store {
        CredentialStore::Unavailable(m) => Err(Error::PersistenceError(m.clone())),
        CredentialStore::Absent => Err(Error::NotAuthenticated),
        CredentialStore::Unreadable(m) => Err(Error::PersistenceError(m.clone())),
        CredentialStore::Corrupt(m) => Err(Error::CorruptCredential(m.clone())),
        CredentialStore::Present(t) => Ok(t.clone()),
    }
}

/// Removes the credential file if there is one, whatever it holds, and does
/// nothing if there is none. Fails with `PersistenceError`, and changes
/// nothing, exactly when the directory is unavailable.
pub fn delete_tokens(store: &mut CredentialStore) -> (r: Result<(), Error>)
    ensures
        done_view(r) == spec_write(old(store)@),
        final(store)@ == spec_store_after_delete(old(store)@),
{
    match store {
        CredentialStore::Unavailable(m) => Err(Error::PersistenceError(m.clone())),
        _ => {
            *store = CredentialStore::Absent;
            Ok(())
        },
    }
}

/// Whether a credential file is there. Never fails: a store whose directory
/// is unavailable holds none.
pub fn tokens_exist(store: &CredentialStore) -> (found: bool)
    ensures
        found == spec_exists(store@),
{
    match store {
        CredentialStore::Unavailable(_) => false,
        CredentialStore::Absent => false,
        _ => true,
    }
}

/// Saving and then loading gives back what was saved: whenever saving
/// `tokens` to `store` succeeds, loading from the store it leaves gives
/// `tokens`, field for field. So does saving over any earlier credential.
pub proof fn lemma_save_then_load(store: CredentialStoreView, tokens: TokenStorageView)
    ensures
        spec_write(store) is Ok ==> spec_load(spec_store_after_save(store, tokens)) == Ok::<
            TokenStorageView,
            ErrorView,
        >(tokens),
        spec_write(store) is Ok ==> spec_exists(spec_store_after_save(store, tokens)),
        spec_write(store) is Err ==> spec_store_after_save(store, tokens) == store,
{
}

/// Deleting from a store that holds no credential file succeeds and leaves
/// it holding none; and deleting a second time does what deleting once did.
pub proof fn lemma_delete_is_idempotent(store: CredentialStoreView)
    ensures
        spec_write(CredentialStoreView::Absent) is Ok,
        spec_store_after_delete(CredentialStoreView::Absent) == CredentialStoreView::Absent,
        !spec_exists(spec_store_after_delete(store)),
        spec_write(spec_store_after_delete(store)) == spec_write(store),
        spec_store_after_delete(spec_store_after_delete(store)) == spec_store_after_delete(store),
        spec_write(store) is Ok ==> spec_load(spec_store_after_delete(store)) == Err::<
            TokenStorageView,
            ErrorView,
        >(ErrorView::NotAuthenticated),
{
}

} // verus!
