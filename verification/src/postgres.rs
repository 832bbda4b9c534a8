//! Postgres connection options built from the database settings, through
//! `sqlx`'s `PgConnectOptions`.

use vstd::prelude::*;
use crate::secret::exposed;
use crate::settings::DatabaseSettings;
use sqlx::postgres::{PgConnectOptions, PgSslMode};

verus! {

#[verifier::external_type_specification]
#[verifier::external_body]
pub struct ExPgConnectOptions(PgConnectOptions);

/// How a connection negotiates SSL; one variant for each variant of
/// `sqlx::postgres::PgSslMode`.
#[derive(Clone, Copy, Debug, PartialEq, Eq, Structural)]
pub enum SslMode {
    Disable,
    Allow,
    Prefer,
    Require,
    VerifyCa,
    VerifyFull,
}

/// What `PgConnectOptions::get_host` returns, by its characters.
pub uninterp spec fn pg_host(options: PgConnectOptions) -> Seq<char>;

/// What `PgConnectOptions::get_port` returns.
pub uninterp spec fn pg_port(options: PgConnectOptions) -> u16;

/// What `PgConnectOptions::get_username` returns, by its characters.
pub uninterp spec fn pg_username(options: PgConnectOptions) -> Seq<char>;

/// What `PgConnectOptions::get_database` returns, by its characters.
pub uninterp spec fn pg_database(options: PgConnectOptions) -> Option<Seq<char>>;

/// The password that the options hold: their field `password`, which
/// `PgConnectOptions::password` sets and the connection sends to the server
/// (`sqlx` offers no getter for it).
pub uninterp spec fn pg_password(options: PgConnectOptions) -> Option<Seq<char>>;

/// What `PgConnectOptions::get_ssl_mode` returns, as the `SslMode` of the
/// same name.
pub uninterp spec fn pg_ssl_mode(options: PgConnectOptions) -> SslMode;

/// Calls `PgConnectOptions::new`. Its result depends on the environment
/// variables `PGHOST`, `PGPORT`, `PGUSER`, `PGPASSWORD`, `PGDATABASE`,
/// `PGSSLMODE` and others, and on the user's `.pgpass` file, so nothing is
/// stated of it.
#[verifier::external_body]
fn default_options() -> (options: PgConnectOptions) {
    PgConnectOptions::new()
}

/// Calls `PgConnectOptions::host`, which replaces the host and nothing else.
#[verifier::external_body]
fn set_host(options: PgConnectOptions, host: &str) -> (updated: PgConnectOptions)
    ensures
        pg_host(updated) == host@,
        pg_port(updated) == pg_port(options),
        pg_username(updated) == pg_username(options),
        pg_database(updated) == pg_database(options),
        pg_ssl_mode(updated) == pg_ssl_mode(options),
        pg_password(updated) == pg_password(options),
{
    options.host(host)
}

/// Calls `PgConnectOptions::username`, which replaces the user name and
/// nothing else.
#[verifier::external_body]
fn set_username(options: PgConnectOptions, username: &str) -> (updated: PgConnectOptions)
    ensures
        pg_username(updated) == username@,
        pg_host(updated) == pg_host(options),
        pg_port(updated) == pg_port(options),
        pg_database(updated) == pg_database(options),
        pg_ssl_mode(updated) == pg_ssl_mode(options),
        pg_password(updated) == pg_password(options),
{
    options.username(username)
}

/// Calls `PgConnectOptions::password`, which stores the password and
/// changes nothing else.
#[verifier::external_body]
fn set_password(options: PgConnectOptions, password: &str) -> (updated: PgConnectOptions)
    ensures
        pg_password(updated) == Some(password@),
        pg_host(updated) == pg_host(options),
        pg_port(updated) == pg_port(options),
        pg_username(updated) == pg_username(options),
        pg_database(updated) == pg_database(options),
        pg_ssl_mode(updated) == pg_ssl_mode(options),
{
    options.password(password)
}

/// Calls `PgConnectOptions::port`, which replaces the port and nothing else.
#[verifier::external_body]
fn set_port(options: PgConnectOptions, port: u16) -> (updated: PgConnectOptions)
    ensures
        pg_port(updated) == port,
        pg_host(updated) == pg_host(options),
        pg_username(updated) == pg_username(options),
        pg_database(updated) == pg_database(options),
        pg_ssl_mode(updated) == pg_ssl_mode(options),
        pg_password(updated) == pg_password(options),
{
    options.port(port)
}

/// Calls `PgConnectOptions::ssl_mode` with the `PgSslMode` of the same name,
/// which replaces the SSL mode and nothing else.
#[verifier::external_body]
fn set_ssl_mode(options: PgConnectOptions, mode: SslMode) -> (updated: PgConnectOptions)
    ensures
        pg_ssl_mode(updated) == mode,
        pg_host(updated) == pg_host(options),
        pg_port(updated) == pg_port(options),
        pg_username(updated) == pg_username(options),
        pg_database(updated) == pg_database(options),
        pg_password(updated) == pg_password(options),
{
    options.ssl_mode(
        match mode {
            SslMode::Disable => PgSslMode::Disable,
            SslMode::Allow => PgSslMode::Allow,
            SslMode::Prefer => PgSslMode::Prefer,
            SslMode::Require => PgSslMode::Require,
            SslMode::VerifyCa => PgSslMode::VerifyCa,
            SslMode::VerifyFull => PgSslMode::VerifyFull,
        },
    )
}

/// Calls `PgConnectOptions::database`, which sets the database name and
/// nothing else.
#[verifier::external_body]
fn set_database(options: PgConnectOptions, database: &str) -> (updated: PgConnectOptions)
    ensures
        pg_database(updated) == Some(database@),
        pg_host(updated) == pg_host(options),
        pg_port(updated) == pg_port(options),
        pg_username(updated) == pg_username(options),
        pg_ssl_mode(updated) == pg_ssl_mode(options),
        pg_password(updated) == pg_password(options),
{
    options.database(database)
}

/// The SSL mode that the settings ask for: `Require` where SSL is required,
/// `Prefer` otherwise.
pub open spec fn ssl_mode_for(require_ssl: bool) -> SslMode {
    if require_ssl {
        SslMode::Require
    } else {
        SslMode::Prefer
    }
}

impl DatabaseSettings {
    /// The SSL mode of connections to the database.
    pub fn ssl_mode(&self) -> (mode: SslMode)
        ensures
            mode == ssl_mode_for(self.require_ssl),
    {
        if self.require_ssl {
            SslMode::Require
        } else {
            SslMode::Prefer
        }
    }

    /// The given options with the settings' host, user name, password, port
    /// and SSL mode; the database, like every other option, stays as the
    /// given options hold it.
    pub fn apply_to(&self, defaults: PgConnectOptions) -> (options: PgConnectOptions)
        ensures
            pg_host(options) == self.host@,
            pg_username(options) == self.username@,
            pg_port(options) == self.port,
            pg_ssl_mode(options) == ssl_mode_for(self.require_ssl),
            pg_password(options) == Some(exposed(self.password)),
            pg_database(options) == pg_database(defaults),
    {
        let ssl_mode = self.ssl_mode();
        let options = set_host(defaults, self.host.as_str());
        let options = set_username(options, self.username.as_str());
        let options = set_password(options, self.password.expose_secret().as_str());
        let options = set_port(options, self.port);
        set_ssl_mode(options, ssl_mode)
    }

    /// Options to connect to the database server, without choosing a
    /// database: the settings applied to `PgConnectOptions::new()`, whose
    /// database is whatever `PGDATABASE` names, if anything.
    pub fn without_db(&self) -> (options: PgConnectOptions)
        ensures
            pg_host(options) == self.host@,
            pg_username(options) == self.username@,
            pg_port(options) == self.port,
            pg_ssl_mode(options) == ssl_mode_for(self.require_ssl),
            pg_password(options) == Some(exposed(self.password)),
    {
        self.apply_to(default_options())
    }

    /// Options to connect to the settings' database.
    pub fn with_db(&self) -> (options: PgConnectOptions)
        ensures
            pg_host(options) == self.host@,
            pg_username(options) == self.username@,
            pg_port(options) == self.port,
            pg_ssl_mode(options) == ssl_mode_for(self.require_ssl),
            pg_password(options) == Some(exposed(self.password)),
            pg_database(options) == Some(self.database_name@),
    {
        set_database(self.without_db(), self.database_name.as_str())
    }
}

} // verus!
