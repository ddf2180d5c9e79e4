use vstd::prelude::*;
use vstd::string::*;

verus! {

/// `seg` appended to the directory `base` as a relative path component:
/// a separator is put between them unless `base` is empty or already ends
/// with one.
pub open spec fn joined(base: Seq<char>, seg: Seq<char>) -> Seq<char> {
    if base.len() == 0 {
        seg
    } else if base.last() == '/' {
        base + seg
    } else {
        base + seq!['/'] + seg
    }
}

/// Appends the relative component `seg` to the directory path `base`.
pub fn join_path(base: &str, seg: &str) -> (r: String)
    ensures
        r@ == joined(base@, seg@),
{
    let n = base.unicode_len();
    if n == 0 {
        return String::from_str(seg);
    }
    let mut r = String::from_str(base);
    if base.get_char(n - 1) != '/' {
        r.append("/");
        proof {
            reveal_strlit("/");
        }
    }
    r.append(seg);
    proof {
        assert(base@.last() == base@[n - 1]);
    }
    r
}

/// The settings the bot is started with, each of them required.
pub struct Cli {
    /// URL of the homeserver
    pub homeserver_url: String,
    /// Username for login
    pub username: String,
    /// Password for login
    pub password: String,
    /// Path to the client data directory
    pub client_data_path: String,
    /// Default federation invite code
    pub default_federation_invite_code: String,
}

/// The bot's configuration, with the paths derived from the data directory.
pub struct Config {
    pub homeserver_url: String,
    pub username: String,
    pub password: String,
    pub data_dir: String,
    /// `<data_dir>/multimint`: the wallet store.
    pub multimint_path: String,
    /// `<data_dir>/matrix/session.json`: the persisted chat session.
    pub session_file: String,
    /// The invite code of the federation registered at start.
    pub default_federation_invite_code: String,
}

pub open spec fn multimint_path_of(data_dir: Seq<char>) -> Seq<char> {
    joined(data_dir, "multimint"@)
}

pub open spec fn session_file_of(data_dir: Seq<char>) -> Seq<char> {
    joined(joined(data_dir, "matrix"@), "session.json"@)
}

impl Config {
    /// Builds the configuration from the settings, deriving the wallet
    /// store path and the session file path from the data directory.
    pub fn from_cli(cli: Cli) -> (r: Config)
        ensures
            r.homeserver_url@ == cli.homeserver_url@,
            r.username@ == cli.username@,
            r.password@ == cli.password@,
            r.data_dir@ == cli.client_data_path@,
            r.multimint_path@ == multimint_path_of(cli.client_data_path@),
            r.session_file@ == session_file_of(cli.client_data_path@),
            r.default_federation_invite_code@ == cli.default_federation_invite_code@,
    {
        let multimint_path = join_path(cli.client_data_path.as_str(), "multimint");
        let matrix_dir = join_path(cli.client_data_path.as_str(), "matrix");
        let session_file = join_path(matrix_dir.as_str(), "session.json");
        Config {
            homeserver_url: cli.homeserver_url,
            username: cli.username,
            password: cli.password,
            data_dir: cli.client_data_path,
            multimint_path,
            session_file,
            default_federation_invite_code: cli.default_federation_invite_code,
        }
    }
}

} // verus!
