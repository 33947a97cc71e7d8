use user_store::sqlite_errors::{DriverError, FailureCode, SqliteError};
use user_store::user_dal::User;

fn user(id: u32, email: &str) -> User {
    User {
        id,
        pseudo: format!("pseudo{}", id),
        password: "hash".to_string(),
        email: email.to_string(),
        age: 31,
        latitude_bits: 48.85f32.to_bits(),
        longitude_bits: 2.35f32.to_bits(),
        gender: "female".to_string(),
        looking_for: "male".to_string(),
        search_radius: 25,
    }
}

#[test]
fn missing_user_by_id_renders_404() {
    let r = User::lookup_result(Err(DriverError::QueryReturnedNoRows));
    let e = match r {
        Err(e) => e,
        Ok(u) => panic!("unexpected user {}", u.id),
    };
    assert!(matches!(e, SqliteError::NotFound));
    let body = e.error_response();
    assert_eq!(body.code, 404);
    assert_eq!(body.error_type, "Ressource not found");
}

#[test]
fn found_user_is_returned_whole() {
    let r = User::lookup_result(Ok(user(42, "a@b.c"))).unwrap();
    assert_eq!(r.id, 42);
    assert_eq!(r.email, "a@b.c");
    assert_eq!(r.pseudo, "pseudo42");
    assert_eq!(f32::from_bits(r.latitude_bits), 48.85f32);
    assert_eq!(r.search_radius, 25);
}

#[test]
fn lookup_failure_is_classified() {
    let r = User::lookup_result(Err(DriverError::InvalidColumnName("age".to_string())));
    assert!(matches!(r, Err(SqliteError::SqliteFailureNoText)));
}

#[test]
fn write_results() {
    assert!(User::write_result(Ok(1)).is_ok());
    let dup = User::write_result(Err(DriverError::SqliteFailure(
        FailureCode { extended_code: 2067 },
        Some("UNIQUE constraint failed: users.email".to_string()),
    )));
    assert!(matches!(dup, Err(SqliteError::SqliteFailureExplained(c, _)) if c.extended_code == 2067));
}

#[test]
fn listing_no_rows() {
    let users = User::users_from_rows(Vec::new()).unwrap();
    assert!(users.is_empty());
}

#[test]
fn listing_one_row() {
    let users = User::users_from_rows(vec![Ok(user(1, "one@x.y"))]).unwrap();
    assert_eq!(users.len(), 1);
    assert_eq!(users[0].email, "one@x.y");
}

#[test]
fn listing_keeps_every_row_in_order() {
    let rows = vec![Ok(user(3, "c@x.y")), Ok(user(1, "a@x.y")), Ok(user(2, "b@x.y"))];
    let users = User::users_from_rows(rows).unwrap();
    let ids: Vec<u32> = users.iter().map(|u| u.id).collect();
    assert_eq!(ids, vec![3, 1, 2]);
}

#[test]
fn listing_reports_the_first_failed_row() {
    let rows = vec![
        Ok(user(1, "a@x.y")),
        Err(DriverError::InvalidColumnType(4, "age".to_string())),
        Err(DriverError::Other),
    ];
    assert!(matches!(User::users_from_rows(rows), Err(SqliteError::SqliteFailureNoText)));
}
