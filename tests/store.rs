use rustyfin::model::ClientData;
use rustyfin::store::{get_user, save_status, save_user, SavedUser, StoreError, WriteOutcome};

fn payload(token: Option<&str>) -> ClientData {
    let mut c = ClientData::default();
    c.access_token = token.map(|t| t.to_string());
    c
}

#[test]
fn missing_token_is_not_saved() {
    assert_eq!(save_user(&payload(None)), Err(StoreError::NoAccessToken));
}

#[test]
fn empty_token_is_not_saved() {
    assert_eq!(save_user(&payload(Some(""))), Err(StoreError::NoAccessToken));
}

#[test]
fn token_is_written_verbatim() {
    assert_eq!(save_user(&payload(Some("tok-123"))), Ok("tok-123".to_string()));
    assert_eq!(save_user(&payload(Some(" a\"b ü "))), Ok(" a\"b ü ".to_string()));
}

#[test]
fn save_reports_each_outcome() {
    assert_eq!(save_status(WriteOutcome::Inserted), Ok("Inserted".to_string()));
    assert_eq!(
        save_status(WriteOutcome::InsertFailed("disk full".to_string())),
        Err(StoreError::StorageFailure("disk full".to_string()))
    );
    assert_eq!(
        save_status(WriteOutcome::TableUnavailable("read-only".to_string())),
        Err(StoreError::StorageInitFailure("read-only".to_string()))
    );
}

#[test]
fn load_from_empty_table_is_not_found() {
    assert_eq!(get_user(Ok(Vec::new())), Err(StoreError::NotFound));
}

#[test]
fn load_failure_reports_the_message() {
    assert_eq!(
        get_user(Err("no such table: user".to_string())),
        Err(StoreError::StorageFailure("no such table: user".to_string()))
    );
}

#[test]
fn load_returns_the_first_row() {
    let rows = vec![
        SavedUser::new(1, "first".to_string()),
        SavedUser::new(2, "second".to_string()),
        SavedUser::new(3, "third".to_string()),
    ];
    assert_eq!(get_user(Ok(rows)), Ok(SavedUser::new(1, "first".to_string())));
}

#[test]
fn saved_token_loads_back_unchanged() {
    let token = "eyJhbGciOi.J9/+==".to_string();
    let written = save_user(&payload(Some(&token))).unwrap();
    let loaded = get_user(Ok(vec![SavedUser::new(7, written)])).unwrap();
    assert_eq!(loaded.accesstoken, token);
}

#[test]
fn repeated_saves_accumulate_and_load_reads_the_first() {
    let a = save_user(&payload(Some("a"))).unwrap();
    let b = save_user(&payload(Some("b"))).unwrap();
    let loaded = get_user(Ok(vec![SavedUser::new(1, a), SavedUser::new(2, b)])).unwrap();
    assert_eq!(loaded.accesstoken, "a");
}
