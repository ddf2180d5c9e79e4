use vstd::prelude::*;
use vstd::string::*;
use matrix_sdk::matrix_auth::MatrixSession;
use crate::config::{join_path, joined};
use crate::text::opt_view;

verus! {

/// matrix-sdk's native Matrix session (user and device ids, access and
/// refresh tokens), carried through unread.
#[verifier::external_type_specification]
#[verifier::external_body]
pub struct ExMatrixSession(matrix_sdk::matrix_auth::MatrixSession);

/// What is needed to reopen the client and its local encrypted store.
pub struct ClientSession {
    pub homeserver: String,
    pub db_path: String,
    pub passphrase: String,
}

/// The persisted session: connection parameters, the authenticated session
/// token that belongs to that store, and the last sync cursor, if any.
pub struct FullSession {
    pub client_session: ClientSession,
    pub user_session: MatrixSession,
    pub sync_token: Option<String>,
}

/// Why the session file could not be loaded.
pub enum LoadError {
    /// No file at the session path.
    NotFound,
    /// The file's content is not a session record.
    Corrupt,
    /// Reading the file failed.
    Io { message: String },
}

/// What the client reports as its session after a login.
pub enum ActiveSession {
    /// The client holds no session.
    Missing,
    /// A native Matrix session.
    Matrix(MatrixSession),
    /// A session of another authentication API.
    Other,
}

/// Why session establishment failed. Each of these ends the start-up.
pub enum StartupError {
    /// The session file exists but does not parse.
    StoreCorrupt,
    /// The session file vanished between the check and the read.
    StoreMissing,
    /// Reading or writing the session file failed.
    Io { message: String },
    /// Building, restoring or logging in the client failed.
    Client { message: String },
    /// After login the client holds no session.
    NoSession,
    /// After login the client's session is not a native Matrix one.
    NotMatrixSession,
}

/// The next thing for the caller to do.
pub enum SessionAction {
    /// Read and parse the session file, then report `loaded`.
    LoadSessionFile,
    /// Build a client from `session.client_session`, attach
    /// `session.user_session`, then report `restored`.
    Restore { session: FullSession },
    /// Build a client from `params`, log in with the configured username and
    /// password under `device_name`, then report `logged_in`.
    Login { params: ClientSession, device_name: String },
    /// Write `session` to the session file, then report `saved`.
    SaveSession { session: FullSession },
    /// The client is authenticated; `sync_token` is the stored cursor.
    Ready { sync_token: Option<String> },
    /// Start-up fails with `error`.
    Abort { error: StartupError },
}

/// Where session establishment stands.
pub enum SessionPhase {
    /// Waiting to learn whether the session file exists.
    CheckingFile,
    /// Waiting for the session file to be read.
    Loading,
    /// Waiting for the stored session to be attached to a new client;
    /// `sync_token` is the stored cursor.
    Restoring { sync_token: Option<String> },
    /// Waiting for a fresh login.
    LoggingIn,
    /// Waiting for the new session to be written.
    Saving,
    /// Authenticated; `sync_token` is the stored cursor, if any.
    Established { sync_token: Option<String> },
    /// Start-up has failed.
    Failed,
}

/// Decides between restoring a persisted session and a fresh login, and
/// what is persisted after a fresh login.
pub struct SessionManager {
    pub homeserver_url: String,
    pub password: String,
    pub data_dir: String,
    pub phase: SessionPhase,
}

/// The device name declared at a fresh login.
pub open spec fn login_device_name() -> Seq<char> {
    "command bot"@
}

/// The local store path used by a fresh login.
pub open spec fn store_path_of(data_dir: Seq<char>) -> Seq<char> {
    joined(data_dir, "matrix"@)
}

fn clone_opt(s: &Option<String>) -> (r: Option<String>)
    ensures
        opt_view(r) == opt_view(*s),
{
    match s {
        Some(t) => Some(t.clone()),
        None => None,
    }
}

/// The settings of a manager are kept by every step.
pub open spec fn keeps_settings(pre: SessionManager, post: SessionManager) -> bool {
    &&& post.homeserver_url == pre.homeserver_url
    &&& post.password == pre.password
    &&& post.data_dir == pre.data_dir
}

/// The step taken once it is known whether the session file `exists`:
/// load it, or log in afresh into the store `<data_dir>/matrix` under the
/// configured homeserver, with the password as the store's passphrase.
pub open spec fn file_checked_step(pre: SessionManager, exists: bool, post: SessionManager, r: SessionAction) -> bool {
    &&& keeps_settings(pre, post)
    &&& exists ==> r is LoadSessionFile && post.phase is Loading
    &&& !exists ==> post.phase is LoggingIn && (r matches SessionAction::Login { params, device_name } && {
        &&& params.homeserver@ == pre.homeserver_url@
        &&& params.db_path@ == store_path_of(pre.data_dir@)
        &&& params.passphrase@ == pre.password@
        &&& device_name@ == login_device_name()
    })
}

/// The step taken on the result of reading the session file: a record is
/// restored with its cursor kept; any failure ends the start-up, a record
/// that does not parse with `StoreCorrupt`.
pub open spec fn loaded_step(
    pre: SessionManager,
    loaded: Result<FullSession, LoadError>,
    post: SessionManager,
    r: SessionAction,
) -> bool {
    &&& keeps_settings(pre, post)
    &&& loaded matches Ok(s) ==> {
        &&& r == (SessionAction::Restore { session: s })
        &&& post.phase is Restoring
        &&& opt_view(post.phase->Restoring_sync_token) == opt_view(s.sync_token)
    }
    &&& loaded is Err ==> post.phase is Failed
    &&& loaded matches Err(LoadError::Corrupt) ==> r == (SessionAction::Abort { error: StartupError::StoreCorrupt })
    &&& loaded matches Err(LoadError::NotFound) ==> r == (SessionAction::Abort { error: StartupError::StoreMissing })
    &&& loaded matches Err(LoadError::Io { message }) ==> r == (SessionAction::Abort { error: StartupError::Io { message } })
}

/// The step taken after a fresh login: a native Matrix session is to be
/// saved with the parameters of the login (the homeserver as the client
/// reports it) and no cursor; anything else ends the start-up.
pub open spec fn logged_in_step(
    pre: SessionManager,
    outcome: Result<ActiveSession, String>,
    homeserver: String,
    post: SessionManager,
    r: SessionAction,
) -> bool {
    &&& keeps_settings(pre, post)
    &&& outcome matches Ok(ActiveSession::Matrix(m)) ==> {
        &&& post.phase is Saving
        &&& r matches SessionAction::SaveSession { session }
        &&& session.client_session.homeserver@ == homeserver@
        &&& session.client_session.db_path@ == store_path_of(pre.data_dir@)
        &&& session.client_session.passphrase@ == pre.password@
        &&& session.user_session == m
        &&& session.sync_token is None
    }
    &&& outcome matches Ok(ActiveSession::Missing) ==> post.phase is Failed
        && r == (SessionAction::Abort { error: StartupError::NoSession })
    &&& outcome matches Ok(ActiveSession::Other) ==> post.phase is Failed
        && r == (SessionAction::Abort { error: StartupError::NotMatrixSession })
    &&& outcome matches Err(message) ==> post.phase is Failed
        && r == (SessionAction::Abort { error: StartupError::Client { message } })
}

/// A session file that exists but does not parse ends the start-up with
/// `StoreCorrupt`, and no fresh login is ever asked for on the way.
pub proof fn corrupt_file_is_fatal(
    m0: SessionManager,
    m1: SessionManager,
    r1: SessionAction,
    m2: SessionManager,
    r2: SessionAction,
)
    requires
        m0.phase is CheckingFile,
        file_checked_step(m0, true, m1, r1),
        loaded_step(m1, Err(LoadError::Corrupt), m2, r2),
    ensures
        !(r1 is Login),
        !(r2 is Login),
        r2 == (SessionAction::Abort { error: StartupError::StoreCorrupt }),
        m2.phase is Failed,
{
}

/// Without a session file the manager logs in afresh, and what it then
/// saves carries the store path and passphrase that the login used, the
/// session token the client reports, and no cursor.
pub proof fn fresh_login_persists_its_parameters(
    m0: SessionManager,
    m1: SessionManager,
    r1: SessionAction,
    token: MatrixSession,
    homeserver: String,
    m2: SessionManager,
    r2: SessionAction,
)
    requires
        m0.phase is CheckingFile,
        file_checked_step(m0, false, m1, r1),
        logged_in_step(m1, Ok(ActiveSession::Matrix(token)), homeserver, m2, r2),
    ensures
        r1 is Login,
        r2 is SaveSession,
        r2->SaveSession_session.client_session.db_path@ == r1->Login_params.db_path@,
        r2->SaveSession_session.client_session.passphrase@ == r1->Login_params.passphrase@,
        r2->SaveSession_session.client_session.homeserver@ == homeserver@,
        r2->SaveSession_session.user_session == token,
        r2->SaveSession_session.sync_token is None,
{
}

impl SessionManager {
    /// A manager for a bot configured with these settings.
    pub fn new(homeserver_url: String, password: String, data_dir: String) -> (r: SessionManager)
        ensures
            r.phase is CheckingFile,
            r.homeserver_url@ == homeserver_url@,
            r.password@ == password@,
            r.data_dir@ == data_dir@,
    {
        SessionManager { homeserver_url, password, data_dir, phase: SessionPhase::CheckingFile }
    }

    /// The session file exists (`exists`) or not: restore from it, or log
    /// in afresh into the store `<data_dir>/matrix`, protected by the
    /// password.
    pub fn file_checked(&mut self, exists: bool) -> (r: SessionAction)
        requires
            old(self).phase is CheckingFile,
        ensures
            file_checked_step(*old(self), exists, *final(self), r),
    {
        if exists {
            self.phase = SessionPhase::Loading;
            SessionAction::LoadSessionFile
        } else {
            let params = ClientSession {
                homeserver: self.homeserver_url.clone(),
                db_path: join_path(self.data_dir.as_str(), "matrix"),
                passphrase: self.password.clone(),
            };
            self.phase = SessionPhase::LoggingIn;
            SessionAction::Login { params, device_name: String::from_str("command bot") }
        }
    }

    /// The session file was read with result `loaded`. A file that does not
    /// parse is fatal: there is no fall-back to a fresh login.
    pub fn loaded(&mut self, loaded: Result<FullSession, LoadError>) -> (r: SessionAction)
        requires
            old(self).phase is Loading,
        ensures
            loaded_step(*old(self), loaded, *final(self), r),
    {
        match loaded {
            Ok(s) => {
                self.phase = SessionPhase::Restoring { sync_token: clone_opt(&s.sync_token) };
                SessionAction::Restore { session: s }
            },
            Err(e) => {
                self.phase = SessionPhase::Failed;
                let error = match e {
                    LoadError::Corrupt => StartupError::StoreCorrupt,
                    LoadError::NotFound => StartupError::StoreMissing,
                    LoadError::Io { message } => StartupError::Io { message },
                };
                SessionAction::Abort { error }
            },
        }
    }
    /// The client was rebuilt from the stored parameters and the stored
    /// session attached (`Ok`), or that failed with `outcome`'s message.
    pub fn restored(&mut self, outcome: Result<(), String>) -> (r: SessionAction)
        requires
            old(self).phase is Restoring,
        ensures
            final(self).homeserver_url == old(self).homeserver_url,
            final(self).password == old(self).password,
            final(self).data_dir == old(self).data_dir,
            outcome is Ok ==> {
                &&& r is Ready
                &&& opt_view(r->sync_token) == opt_view(old(self).phase->Restoring_sync_token)
                &&& final(self).phase is Established
                &&& opt_view(final(self).phase->Established_sync_token) == opt_view(old(self).phase->Restoring_sync_token)
            },
            outcome matches Err(message) ==> {
                &&& r == (SessionAction::Abort { error: StartupError::Client { message } })
                &&& final(self).phase is Failed
            },
    {
        match outcome {
            Ok(()) => {
                let token = match &self.phase {
                    SessionPhase::Restoring { sync_token } => clone_opt(sync_token),
                    _ => None,
                };
                let kept = clone_opt(&token);
                self.phase = SessionPhase::Established { sync_token: kept };
                SessionAction::Ready { sync_token: token }
            },
            Err(message) => {
                self.phase = SessionPhase::Failed;
                SessionAction::Abort { error: StartupError::Client { message } }
            },
        }
    }

    /// The fresh login finished: `outcome` is the session the client then
    /// reports, or the login's failure message; `homeserver` is the
    /// homeserver URL as the client reports it. A native Matrix session is
    /// persisted together with the parameters the login used and no cursor.
    pub fn logged_in(&mut self, outcome: Result<ActiveSession, String>, homeserver: String) -> (r: SessionAction)
        requires
            old(self).phase is LoggingIn,
        ensures
            logged_in_step(*old(self), outcome, homeserver, *final(self), r),
    {
        match outcome {
            Ok(ActiveSession::Matrix(m)) => {
                let client_session = ClientSession {
                    homeserver,
                    db_path: join_path(self.data_dir.as_str(), "matrix"),
                    passphrase: self.password.clone(),
                };
                self.phase = SessionPhase::Saving;
                SessionAction::SaveSession {
                    session: FullSession { client_session, user_session: m, sync_token: None },
                }
            },
            Ok(ActiveSession::Missing) => {
                self.phase = SessionPhase::Failed;
                SessionAction::Abort { error: StartupError::NoSession }
            },
            Ok(ActiveSession::Other) => {
                self.phase = SessionPhase::Failed;
                SessionAction::Abort { error: StartupError::NotMatrixSession }
            },
            Err(message) => {
                self.phase = SessionPhase::Failed;
                SessionAction::Abort { error: StartupError::Client { message } }
            },
        }
    }

    /// The new session was written (`Ok`) or writing it failed with
    /// `outcome`'s message. A freshly logged-in client starts without a
    /// cursor.
    pub fn saved(&mut self, outcome: Result<(), String>) -> (r: SessionAction)
        requires
            old(self).phase is Saving,
        ensures
            final(self).homeserver_url == old(self).homeserver_url,
            final(self).password == old(self).password,
            final(self).data_dir == old(self).data_dir,
            outcome is Ok ==> r == (SessionAction::Ready { sync_token: None })
                && final(self).phase == (SessionPhase::Established { sync_token: None }),
            outcome matches Err(message) ==> final(self).phase is Failed
                && r == (SessionAction::Abort { error: StartupError::Io { message } }),
    {
        match outcome {
            Ok(()) => {
                self.phase = SessionPhase::Established { sync_token: None };
                SessionAction::Ready { sync_token: None }
            },
            Err(message) => {
                self.phase = SessionPhase::Failed;
                SessionAction::Abort { error: StartupError::Io { message } }
            },
        }
    }
}

} // verus!
