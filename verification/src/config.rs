//! The server's settings.

use vstd::prelude::*;

verus! {

/// Where the server listens, the database it uses, and whether requests
/// must carry an access token.
#[derive(Debug)]
pub struct Config {
    pub port: u16,
    pub database_url: String,
    pub auth: bool,
}

impl Default for Config {
    /// Port 8080, the SQLite file `db.sqlite3`, and no authorization.
    fn default() -> (c: Self)
        ensures
            c.port == 8080,
            c.database_url@ == "sqlite://db.sqlite3"@,
            !c.auth,
    {
        Config { port: 8080, database_url: "sqlite://db.sqlite3".to_owned(), auth: false }
    }
}

} // verus!
