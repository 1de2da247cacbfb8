//! Database connection settings, form input, and page parameters.
use vstd::prelude::*;

verus! {

/// Where and as whom to connect to the database.
#[derive(Debug, Clone)]
pub struct DbCredentials {
    pub host: String,
    pub port: u16,
    pub username: String,
    pub password: String,
    pub name: String,
}

impl Default for DbCredentials {
    /// A local development database.
    fn default() -> (r: DbCredentials)
        ensures
            r.host@ == "localhost"@,
            r.port == 5432,
            r.username@ == "username"@,
            r.password@ == "password"@,
            r.name@ == "development_db"@,
    {
        DbCredentials {
            host: String::from_str("localhost"),
            port: 5432,
            username: String::from_str("username"),
            password: String::from_str("password"),
            name: String::from_str("development_db"),
        }
    }
}

/// Command-line settings of the programs.
#[derive(Debug, Clone)]
pub struct CliArgs {
    pub db: DbCredentials,
}

/// A login or registration form.
#[derive(Debug, Clone)]
pub struct Credentials {
    /// `true` to log in, `false` to register.
    pub authentication: bool,
    pub username: String,
    pub password: String,
    /// Where to go afterwards.
    pub next: Option<String>,
}

/// A form checkbox counts as ticked whenever its field is present, whatever
/// value it carries (browsers send "on").
pub fn checkbox_ticked(field: &Option<String>) -> (r: bool)
    ensures
        r == field is Some,
{
    field.is_some()
}

impl Credentials {
    /// The credentials a submitted form carries; `authentication` is the raw
    /// checkbox field, if present.
    pub fn from_form(authentication: Option<String>, username: String, password: String, next: Option<String>) -> (r: Credentials)
        ensures
            r.authentication == authentication is Some,
            r.username == username,
            r.password == password,
            r.next == next,
    {
        Credentials { authentication: checkbox_ticked(&authentication), username, password, next }
    }
}

/// Paging parameters of a listing request.
#[derive(Debug, Clone, Copy, PartialEq, Eq, Structural)]
pub struct DbQuery {
    pub limit: Option<i64>,
    pub offset: Option<i64>,
}

/// The page size of a listing request that names none.
pub const DEFAULT_PAGE_SIZE: i64 = 10;

impl DbQuery {
    /// The requested page size, or the default.
    pub fn limit_or_default(&self) -> (r: i64)
        ensures
            r == match self.limit {
                Some(l) => l,
                None => DEFAULT_PAGE_SIZE,
            },
    {
        match self.limit {
            Some(l) => l,
            None => DEFAULT_PAGE_SIZE,
        }
    }

    /// The requested offset, or zero.
    pub fn offset_or_default(&self) -> (r: i64)
        ensures
            r == match self.offset {
                Some(o) => o,
                None => 0,
            },
    {
        match self.offset {
            Some(o) => o,
            None => 0,
        }
    }
}

/// Site-wide values shown on every page.
#[derive(Debug, Clone)]
pub struct WebData<'a> {
    pub title: &'a str,
    pub visitors: u64,
}

} // verus!
