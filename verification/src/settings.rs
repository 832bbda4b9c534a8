//! The application's settings, as read from its configuration, and what is
//! computed from them: the database connection URL and the e-mail client's
//! timeout.

use vstd::prelude::*;
use crate::secret::{exposed, SecretString};
use crate::text::{decimal, u16_to_decimal};
use core::time::Duration;

verus! {

/// All settings of the application.
#[derive(Clone)]
pub struct Settings {
    pub database: DatabaseSettings,
    pub application: ApplicationSettings,
    pub email_client: EmailClientSettings,
    pub redis_uri: SecretString,
}

/// Settings of the HTTP application.
#[derive(Clone)]
pub struct ApplicationSettings {
    pub port: u16,
    pub host: String,
    pub base_url: String,
    pub hmac_secret: SecretString,
}

/// Settings of the client that sends e-mail.
#[derive(Clone)]
pub struct EmailClientSettings {
    pub base_url: String,
    pub sender_email: String,
    pub authorization_token: SecretString,
    pub timeout_milliseconds: u64,
}

/// Settings of the Postgres database.
#[derive(Clone)]
pub struct DatabaseSettings {
    pub username: String,
    pub password: SecretString,
    pub host: String,
    pub port: u16,
    pub database_name: String,
    pub require_ssl: bool,
}

/// The contents of the `.env` file that holds the database's URL.
#[derive(Clone)]
pub struct EnvFile {
    pub database_url: SecretString,
}

/// The URL of a Postgres database:
/// `postgres://{username}:{password}@{host}:{port}/{database}`.
pub open spec fn postgres_url_spec(
    username: Seq<char>,
    password: Seq<char>,
    host: Seq<char>,
    port: u16,
    database: Seq<char>,
) -> Seq<char> {
    seq!['p', 'o', 's', 't', 'g', 'r', 'e', 's', ':', '/', '/'] + username + seq![':'] + password
        + seq!['@'] + host + seq![':'] + decimal(port as nat) + seq!['/'] + database
}

/// Every part stands whole in the URL, in order and between its separators:
/// the URL is `postgres://`, the user name, `:`, the whole password, `@`, the
/// host, `:`, the port in decimal, `/` and the database, and nothing else.
pub proof fn law_url_holds_each_part_whole(
    username: Seq<char>,
    password: Seq<char>,
    host: Seq<char>,
    port: u16,
    database: Seq<char>,
)
    ensures
        postgres_url_spec(username, password, host, port, database).len() == 11 + username.len() as int
            + 1 + password.len() as int + 1 + host.len() as int + 1 + decimal(port as nat).len() as int + 1
            + database.len() as int,
        postgres_url_spec(username, password, host, port, database).subrange(0, 11)
            == "postgres://"@,
        postgres_url_spec(username, password, host, port, database).subrange(
            11,
            11 + username.len() as int,
        ) == username,
        postgres_url_spec(username, password, host, port, database)[11 + username.len() as int] == ':',
        postgres_url_spec(username, password, host, port, database).subrange(
            12 + username.len() as int,
            12 + username.len() as int + password.len() as int,
        ) == password,
        postgres_url_spec(username, password, host, port, database)[12 + username.len() as int
            + password.len() as int] == '@',
        postgres_url_spec(username, password, host, port, database).subrange(
            13 + username.len() as int + password.len() as int,
            13 + username.len() as int + password.len() as int + host.len() as int,
        ) == host,
        postgres_url_spec(username, password, host, port, database)[13 + username.len() as int
            + password.len() as int + host.len() as int] == ':',
        postgres_url_spec(username, password, host, port, database).subrange(
            14 + username.len() as int + password.len() as int + host.len() as int,
            14 + username.len() as int + password.len() as int + host.len() as int + decimal(port as nat).len() as int,
        ) == decimal(port as nat),
        postgres_url_spec(username, password, host, port, database)[14 + username.len() as int
            + password.len() as int + host.len() as int + decimal(port as nat).len() as int] == '/',
        postgres_url_spec(username, password, host, port, database).subrange(
            15 + username.len() as int + password.len() as int + host.len() as int + decimal(port as nat).len() as int,
            15 + username.len() as int + password.len() as int + host.len() as int + decimal(port as nat).len() as int
                + database.len() as int,
        ) == database,
{
    reveal_strlit("postgres://");
    let url = postgres_url_spec(username, password, host, port, database);
    let q = decimal(port as nat);
    let a: int = 11 + username.len() as int;
    let b: int = a + 1 + password.len() as int;
    let c: int = b + 1 + host.len() as int;
    let e: int = c + 1 + q.len() as int;
    assert(url.subrange(0, 11) =~= "postgres://"@);
    assert(url.subrange(11, a) =~= username);
    assert(url.subrange(a + 1, b) =~= password);
    assert(url.subrange(b + 1, c) =~= host);
    assert(url.subrange(c + 1, e) =~= q);
    assert(url.subrange(e + 1, e + 1 + database.len() as int) =~= database);
}

/// Builds the URL of a Postgres database from its parts.
pub fn postgres_url(username: &str, password: &str, host: &str, port: u16, database: &str) -> (url:
    String)
    ensures
        url@ == postgres_url_spec(username@, password@, host@, port, database@),
{
    proof {
        reveal_strlit("postgres://");
        reveal_strlit(":");
        reveal_strlit("@");
        reveal_strlit("/");
    }
    let mut url = "postgres://".to_owned();
    url.append(username);
    url.append(":");
    url.append(password);
    url.append("@");
    url.append(host);
    url.append(":");
    let port_text = u16_to_decimal(port);
    url.append(port_text.as_str());
    url.append("/");
    url.append(database);
    assert(url@ =~= postgres_url_spec(username@, password@, host@, port, database@));
    url
}

impl DatabaseSettings {
    /// The connection URL of the database, on the given port, as a secret.
    pub fn connection_string(&self, port: u16) -> (url: SecretString)
        ensures
            exposed(url) == postgres_url_spec(
                self.username@,
                exposed(self.password),
                self.host@,
                port,
                self.database_name@,
            ),
    {
        let password = self.password.expose_secret();
        SecretString::new(
            postgres_url(
                self.username.as_str(),
                password.as_str(),
                self.host.as_str(),
                port,
                self.database_name.as_str(),
            ),
        )
    }
}

/// What `Duration::as_millis` returns for a duration.
pub uninterp spec fn duration_millis(d: Duration) -> u128;

/// What `Duration::as_nanos` returns for a duration: its whole length in
/// nanoseconds, which fixes the duration.
pub uninterp spec fn duration_nanos(d: Duration) -> u128;

/// Calls `Duration::from_millis`, which makes the duration of the given
/// number of milliseconds: `as_millis` gives that number back, and
/// `as_nanos` gives it times one million.
#[verifier::external_body]
fn duration_from_millis(millis: u64) -> (d: Duration)
    ensures
        duration_millis(d) == millis,
        duration_nanos(d) == millis * 1_000_000,
{
    Duration::from_millis(millis)
}

impl EmailClientSettings {
    /// How long the e-mail client waits for a request.
    pub fn timeout(&self) -> (d: Duration)
        ensures
            duration_millis(d) == self.timeout_milliseconds,
            duration_nanos(d) == self.timeout_milliseconds * 1_000_000,
    {
        duration_from_millis(self.timeout_milliseconds)
    }
}

impl Settings {
    /// The same settings with the database's port replaced.
    pub fn with_database_port(self, port: u16) -> (updated: Settings)
        ensures
            updated.database.port == port,
            updated.database.username == self.database.username,
            updated.database.password == self.database.password,
            updated.database.host == self.database.host,
            updated.database.database_name == self.database.database_name,
            updated.database.require_ssl == self.database.require_ssl,
            updated.application == self.application,
            updated.email_client == self.email_client,
            updated.redis_uri == self.redis_uri,
    {
        Settings { database: DatabaseSettings { port, ..self.database }, ..self }
    }
}

} // verus!
