use sfg_bot::riot::tracker::TrackerError;
use sfg_bot::RepositoryError;

#[test]
fn tracker_error_is_debug() {
    let repo_err = RepositoryError::Database(sqlx::Error::RowNotFound.to_string());
    let err = TrackerError::Database(repo_err);
    let debug = format!("{:?}", err);
    assert!(debug.contains("Database"));
}

#[test]
fn database_error_display() {
    let repo_err = RepositoryError::Database(sqlx::Error::RowNotFound.to_string());
    let err = TrackerError::Database(repo_err);
    let display = err.message();
    assert!(display.contains("Database error"));
}
