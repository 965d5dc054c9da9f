use vstd::prelude::*;

verus! {

/// Seconds allowed for establishing a database handle.
pub const CONNECT_TIMEOUT_SECS: u64 = 5;

/// Everything needed to open an authenticated handle on one database.
#[derive(Clone, Debug)]
pub struct ConnectionSettings {
    pub uri: String,
    pub default_database: String,
    /// Database against which the credentials are checked.
    pub auth_source: String,
    pub username: String,
    pub password: String,
    pub connect_timeout_secs: u64,
}

/// `s` binds the credentials `user`/`password` to database `db` at `uri`,
/// with the fixed connect timeout.
pub open spec fn settings_for(
    s: ConnectionSettings,
    uri: Seq<char>,
    db: Seq<char>,
    user: Seq<char>,
    password: Seq<char>,
) -> bool {
    &&& s.uri@ == uri
    &&& s.default_database@ == db
    &&& s.auth_source@ == db
    &&& s.username@ == user
    &&& s.password@ == password
    &&& s.connect_timeout_secs == CONNECT_TIMEOUT_SECS
}

impl ConnectionSettings {
    pub fn new(uri: &String, database: &String, user: &String, password: &String) -> (r:
        ConnectionSettings)
        ensures
            settings_for(r, uri@, database@, user@, password@),
    {
        ConnectionSettings {
            uri: uri.clone(),
            default_database: database.clone(),
            auth_source: database.clone(),
            username: user.clone(),
            password: password.clone(),
            connect_timeout_secs: CONNECT_TIMEOUT_SECS,
        }
    }
}

} // verus!
