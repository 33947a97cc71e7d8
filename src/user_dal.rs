use vstd::prelude::*;

use crate::sqlite_errors::{classified, map_sqlite_error, DriverError, SqliteError};

verus! {

/// One registered profile, as a row of the `users` table holds it.
///
/// The coordinates are kept as the bit patterns of their single-precision
/// values (`f32::to_bits`): the record carries them and never computes with
/// them.
#[derive(Debug)]
pub struct User {
    pub id: u32,
    pub pseudo: String,
    pub password: String,
    pub email: String,
    pub age: u8,
    pub latitude_bits: u32,
    pub longitude_bits: u32,
    pub gender: String,
    pub looking_for: String,
    pub search_radius: u16,
}

/// Inserts a new profile with every field but the identifier, which the
/// store assigns.
pub const INSERT_USER_SQL: &'static str =
    "INSERT INTO users (pseudo, password, email, age, latitude, longitude, gender, looking_for, search_radius) VALUES (?, ?, ?, ?, ?, ?, ?, ?, ?)";

/// Reads the profile with a given email.
pub const SELECT_USER_BY_EMAIL_SQL: &'static str = "SELECT * FROM users WHERE email = ?";

/// Reads the profile with a given identifier.
pub const SELECT_USER_BY_ID_SQL: &'static str = "SELECT * FROM users WHERE person_id = ?";

/// Rewrites the mutable fields of one profile, found by its identifier. The
/// identifier, the email (the key that authentication looks a profile up by)
/// and the password are left as they are.
pub const UPDATE_USER_INFOS_SQL: &'static str =
    "UPDATE users SET pseudo = ?, age = ?, latitude = ?, longitude = ?, gender = ?, looking_for = ?, search_radius = ? WHERE person_id = ?";

/// Reads every profile, in the store's order.
pub const SELECT_USERS_SQL: &'static str = "SELECT * FROM users";

/// The column that holds `User::id`; the other columns carry the names of
/// the fields.
pub const ID_COLUMN: &'static str = "person_id";

/// The outcome of a statement that reads one row, as the operation reports it.
pub open spec fn lookup_outcome(found: Result<User, DriverError>) -> Result<User, SqliteError> {
    match found {
        Ok(u) => Ok(u),
        Err(e) => Err(classified(e)),
    }
}

/// The outcome of a statement that writes, as the operation reports it.
pub open spec fn write_outcome(done: Result<usize, DriverError>) -> Result<(), SqliteError> {
    match done {
        Ok(_) => Ok(()),
        Err(e) => Err(classified(e)),
    }
}

/// Every row of the listing was read.
pub open spec fn all_rows_read(rows: Seq<Result<User, DriverError>>) -> bool {
    forall|i: int| 0 <= i < rows.len() ==> (#[trigger] rows[i]) is Ok
}

/// Row `k` is the first one that could not be read.
pub open spec fn first_failed_row(rows: Seq<Result<User, DriverError>>, k: int) -> bool {
    &&& 0 <= k < rows.len()
    &&& rows[k] is Err
    &&& forall|j: int| 0 <= j < k ==> (#[trigger] rows[j]) is Ok
}

/// A lookup, by email or by identifier, that finds no row reports `NotFound`,
/// which is sent with status 404 under the category "Ressource not found".
pub proof fn lemma_missing_row_is_not_found()
    ensures
        lookup_outcome(Err(DriverError::QueryReturnedNoRows)) == Err::<User, SqliteError>(
            SqliteError::NotFound,
        ),
        SqliteError::NotFound.status() == 404,
        SqliteError::NotFound.category() == "Ressource not found"@,
{
}

impl User {
    /// Finishes a lookup (by email or by identifier): the row found, or the
    /// classified failure; no row at all is `NotFound`.
    pub fn lookup_result(found: Result<User, DriverError>) -> (r: Result<User, SqliteError>)
        ensures
            r == lookup_outcome(found),
    {
        match found {
            Ok(u) => Ok(u),
            Err(e) => Err(map_sqlite_error(e)),
        }
    }

    /// Finishes a create or an update: success, or the classified failure.
    pub fn write_result(done: Result<usize, DriverError>) -> (r: Result<(), SqliteError>)
        ensures
            r == write_outcome(done),
    {
        match done {
            Ok(_) => Ok(()),
            Err(e) => Err(map_sqlite_error(e)),
        }
    }

    /// Finishes the listing of every profile: the users of all rows, in the
    /// rows' order, when every row was read; otherwise the classified failure
    /// of the first row that was not.
    pub fn users_from_rows(mut rows: Vec<Result<User, DriverError>>) -> (r: Result<
        Vec<User>,
        SqliteError,
    >)
        ensures
            match r {
                Ok(users) => {
                    &&& all_rows_read(rows@)
                    &&& users@.len() == rows@.len()
                    &&& forall|i: int| 0 <= i < rows@.len() ==> users@[i] == (#[trigger] rows@[i])->Ok_0
                },
                Err(e) => exists|k: int|
                    #[trigger] first_failed_row(rows@, k) && e == classified(rows@[k]->Err_0),
            },
    {
        let ghost all = rows@;
        let n = rows.len();
        // Taken from the back, the rows stand here in reverse order.
        let mut pending: Vec<Result<User, DriverError>> = Vec::new();
        while rows.len() > 0
            invariant
                rows@ == all.subrange(0, rows@.len() as int),
                pending@.len() == n - rows@.len(),
                n == all.len(),
                forall|j: int| 0 <= j < pending@.len() ==> #[trigger] pending@[j] == all[n - 1 - j],
            decreases rows@.len(),
        {
            let row = rows.pop().unwrap();
            pending.push(row);
        }
        let mut users: Vec<User> = Vec::new();
        let mut failure: Option<SqliteError> = None;
        while pending.len() > 0 && failure.is_none()
            invariant
                n == all.len(),
                forall|j: int| 0 <= j < pending@.len() ==> #[trigger] pending@[j] == all[n - 1 - j],
                forall|j: int| 0 <= j < users@.len() ==> (#[trigger] all[j]) is Ok,
                forall|j: int| 0 <= j < users@.len() ==> #[trigger] users@[j] == all[j]->Ok_0,
                failure is None ==> users@.len() + pending@.len() == n,
                failure matches Some(f) ==> exists|k: int|
                    #[trigger] first_failed_row(all, k) && f == classified(all[k]->Err_0),
            decreases pending@.len(),
        {
            let k = users.len();
            assert(pending@[pending@.len() - 1] == all[k as int]);
            match pending.pop().unwrap() {
                Ok(u) => users.push(u),
                Err(e) => {
                    assert(first_failed_row(all, k as int));
                    failure = Some(map_sqlite_error(e));
                },
            }
        }
        match failure {
            Some(f) => Err(f),
            None => Ok(users),
        }
    }
}

} // verus!
