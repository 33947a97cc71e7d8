use vstd::prelude::*;
use vstd::string::StringExecFns;

use crate::response::{ErrorResponse, INTERNAL_SERVER_ERROR, NOT_FOUND};

verus! {

/// The result code reported by SQLite for a failed call, as the driver
/// hands it over (the extended code; its low byte is the primary code).
#[derive(Clone, Copy, Debug, PartialEq, Eq, Structural)]
pub struct FailureCode {
    pub extended_code: i32,
}

/// A raw failure of the SQLite driver, with what classification reads of it.
#[derive(Debug)]
pub enum DriverError {
    /// A query expected to return exactly one row returned none.
    QueryReturnedNoRows,
    /// SQLite reported a failure, with its code and, when there is one, its text.
    SqliteFailure(FailureCode, Option<String>),
    /// A column was requested by an index that the statement does not have.
    InvalidColumnIndex(usize),
    /// A column held a value of another type than the one requested.
    InvalidColumnType(usize, String),
    /// A column was requested by a name that the statement does not have.
    InvalidColumnName(String),
    /// Any other failure of the driver.
    Other,
}

/// A classified storage failure.
#[derive(Debug)]
pub enum SqliteError {
    NotFound,
    UnknownSqliteError,
    SqliteFailure(FailureCode),
    SqliteFailureExplained(FailureCode, String),
    SqliteFailureNoText,
}

/// The classification of a raw driver failure.
pub open spec fn classified(e: DriverError) -> SqliteError {
    match e {
        DriverError::QueryReturnedNoRows => SqliteError::NotFound,
        DriverError::SqliteFailure(c, Some(m)) => SqliteError::SqliteFailureExplained(c, m),
        DriverError::SqliteFailure(c, None) => SqliteError::SqliteFailure(c),
        DriverError::InvalidColumnIndex(_) => SqliteError::SqliteFailureNoText,
        DriverError::InvalidColumnType(_, _) => SqliteError::SqliteFailureNoText,
        DriverError::InvalidColumnName(_) => SqliteError::SqliteFailureNoText,
        DriverError::Other => SqliteError::UnknownSqliteError,
    }
}

/// Classifies a raw driver failure. Total: every failure yields exactly one
/// kind, with `UnknownSqliteError` for whatever is not recognised.
pub fn map_sqlite_error(e: DriverError) -> (r: SqliteError)
    ensures
        r == classified(e),
{
    match e {
        DriverError::QueryReturnedNoRows => SqliteError::NotFound,
        DriverError::SqliteFailure(c, Some(m)) => SqliteError::SqliteFailureExplained(c, m),
        DriverError::SqliteFailure(c, None) => SqliteError::SqliteFailure(c),
        DriverError::InvalidColumnIndex(_) => SqliteError::SqliteFailureNoText,
        DriverError::InvalidColumnType(_, _) => SqliteError::SqliteFailureNoText,
        DriverError::InvalidColumnName(_) => SqliteError::SqliteFailureNoText,
        DriverError::Other => SqliteError::UnknownSqliteError,
    }
}

impl SqliteError {
    /// The category name of the failure. The spelling "Ressource" is the one
    /// that clients already match on, and is kept.
    pub open spec fn category(&self) -> Seq<char> {
        match self {
            SqliteError::NotFound => "Ressource not found"@,
            SqliteError::UnknownSqliteError => "Unknown sqlite error"@,
            SqliteError::SqliteFailure(_) => "Sqlite failure"@,
            SqliteError::SqliteFailureExplained(_, _) => "Sqlite failure"@,
            SqliteError::SqliteFailureNoText => "Sqlite result access failure"@,
        }
    }

    /// Whether `s` is a message of the failure: the driver's text for the
    /// code, with the text that came with the failure after it where there
    /// was one; a fixed text for the other kinds.
    pub open spec fn message_fits(&self, s: Seq<char>) -> bool {
        match self {
            SqliteError::NotFound => s == "The requested resource does not exist"@,
            SqliteError::UnknownSqliteError => s == "Unknown sqlite error"@,
            SqliteError::SqliteFailure(c) => starts_with(s, code_prefix(c.extended_code as int)),
            SqliteError::SqliteFailureExplained(c, m) => exists|t: Seq<char>|
                #[trigger] starts_with(t, code_prefix(c.extended_code as int)) && s == t + " : "@
                    + m@,
            SqliteError::SqliteFailureNoText => s
                == "Something went wrong in the database, it is not your fault"@,
        }
    }

    /// The status of the failure: 404 for a missing resource, 500 otherwise.
    pub open spec fn status(&self) -> u16 {
        if self is NotFound {
            NOT_FOUND
        } else {
            INTERNAL_SERVER_ERROR
        }
    }

    pub fn name(&self) -> (r: String)
        ensures
            r@ == self.category(),
            r@.len() > 0,
    {
        proof {
            reveal_strlit("Ressource not found");
            reveal_strlit("Unknown sqlite error");
            reveal_strlit("Sqlite failure");
            reveal_strlit("Sqlite result access failure");
        }
        match self {
            SqliteError::NotFound => String::from_str("Ressource not found"),
            SqliteError::UnknownSqliteError => String::from_str("Unknown sqlite error"),
            SqliteError::SqliteFailure(_) => String::from_str("Sqlite failure"),
            SqliteError::SqliteFailureExplained(_, _) => String::from_str("Sqlite failure"),
            SqliteError::SqliteFailureNoText => String::from_str("Sqlite result access failure"),
        }
    }

    pub fn message(&self) -> (r: String)
        ensures
            self.message_fits(r@),
            r@.len() > 0,
    {
        proof {
            reveal_strlit("The requested resource does not exist");
            reveal_strlit("Unknown sqlite error");
            reveal_strlit("Something went wrong in the database, it is not your fault");
        }
        match self {
            SqliteError::NotFound => String::from_str("The requested resource does not exist"),
            SqliteError::UnknownSqliteError => String::from_str("Unknown sqlite error"),
            SqliteError::SqliteFailure(c) => code_text(c.extended_code),
            SqliteError::SqliteFailureExplained(c, m) => {
                let text = code_text(c.extended_code);
                let r = text.concat(" : ").concat(m.as_str());
                assert(r@ == text@ + " : "@ + m@);
                r
            },
            SqliteError::SqliteFailureNoText => String::from_str(
                "Something went wrong in the database, it is not your fault",
            ),
        }
    }

    pub fn status_code(&self) -> (r: u16)
        ensures
            r == self.status(),
            r == NOT_FOUND || r == INTERNAL_SERVER_ERROR,
    {
        match self {
            SqliteError::NotFound => NOT_FOUND,
            _ => INTERNAL_SERVER_ERROR,
        }
    }

    /// Renders the failure as a response body; never fails.
    pub fn error_response(&self) -> (r: ErrorResponse)
        ensures
            r.code == self.status(),
            r.error_type@ == self.category(),
            self.message_fits(r.detailed_error@),
            r.error_type@.len() > 0,
            r.detailed_error@.len() > 0,
    {
        ErrorResponse { code: self.status_code(), error_type: self.name(), detailed_error: self.message() }
    }
}

/// `s` begins with `p`.
pub open spec fn starts_with(s: Seq<char>, p: Seq<char>) -> bool {
    p.len() <= s.len() && s.subrange(0, p.len() as int) == p
}

/// The decimal digit for `d`, below ten.
pub open spec fn digit(d: nat) -> char {
    seq!['0', '1', '2', '3', '4', '5', '6', '7', '8', '9'][d as int]
}

/// The decimal digits of `n`, most significant first.
pub open spec fn decimal(n: nat) -> Seq<char>
    decreases n,
{
    if n < 10 {
        seq![digit(n)]
    } else {
        decimal(n / 10).push(digit(n % 10))
    }
}

/// `n` written in decimal, with a minus sign when it is negative.
pub open spec fn int_text(n: int) -> Seq<char> {
    if n < 0 {
        seq!['-'] + decimal((-n) as nat)
    } else {
        decimal(n as nat)
    }
}

/// How the driver's text for a result code begins.
pub open spec fn code_prefix(extended_code: int) -> Seq<char> {
    "Error code "@ + int_text(extended_code) + ": "@
}

/// Relies on the `Display` impl of `libsqlite3_sys::Error`, which writes
/// "Error code {n}: " and then the description that the linked SQLite
/// library gives for the code.
#[verifier::external_body]
fn code_text(extended_code: i32) -> (r: String)
    ensures
        starts_with(r@, code_prefix(extended_code as int)),
        r@.len() > 0,
{
    libsqlite3_sys::Error::new(extended_code).to_string()
}

} // verus!
