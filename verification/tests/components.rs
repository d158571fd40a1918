//! Tests for the leaf components: the error classifier, the association
//! grouper and the front-end configuration.

use blog_data::errors::{AppError, BlockingFailure, StorageFailure};
use blog_data::grouper::group_comments_by_post;
use blog_data::messages::MessageApp;
use blog_data::models::{Comment, User};

fn comment(id: i32, post_id: i32, body: &str) -> (Comment, User) {
    (
        Comment { id, user_id: 1, post_id, body: body.to_string() },
        User { id: 1, username: "author".to_string() },
    )
}

#[test]
fn classifier_maps_unique_violation() {
    let raw = StorageFailure::UniqueViolation("users.username".to_string());
    assert_eq!(AppError::from_storage(raw), AppError::RecordAlreadyExists);
}

#[test]
fn classifier_maps_missing_row() {
    assert_eq!(AppError::from_storage(StorageFailure::RowMissing), AppError::RecordNotFound);
}

#[test]
fn classifier_keeps_detail_of_other_failures() {
    let raw = StorageFailure::Other("connection reset".to_string());
    assert_eq!(
        AppError::from_storage(raw),
        AppError::DatabaseError("connection reset".to_string())
    );
}

#[test]
fn blocking_outcomes_resolve() {
    let failed = BlockingFailure::Failed(AppError::RecordNotFound);
    assert_eq!(AppError::from_blocking(failed), AppError::RecordNotFound);
    assert_eq!(AppError::from_blocking(BlockingFailure::Cancelled), AppError::OperationCancelled);
}

#[test]
fn fault_kinds_are_told_apart() {
    assert!(!AppError::RecordAlreadyExists.is_fault());
    assert!(!AppError::RecordNotFound.is_fault());
    assert!(AppError::DatabaseError("boom".to_string()).is_fault());
    assert!(AppError::OperationCancelled.is_fault());
}

#[test]
fn messages_describe_each_kind() {
    assert_eq!(
        AppError::RecordAlreadyExists.message(),
        "This record violates a unique constraint"
    );
    assert_eq!(AppError::RecordNotFound.message(), "This record does not exist");
    assert_eq!(
        AppError::DatabaseError("disk gone".to_string()).message(),
        "Database error: disk gone"
    );
    assert_eq!(AppError::OperationCancelled.message(), "The operation was cancelled");
}

#[test]
fn grouper_partitions_children_stably() {
    let parents = vec![1, 2, 3];
    let c1 = comment(1, 2, "c1");
    let c2 = comment(2, 1, "c2");
    let c3 = comment(3, 2, "c3");
    let groups = group_comments_by_post(&parents, vec![c1.clone(), c2.clone(), c3.clone()]);
    assert_eq!(groups.len(), 3);
    assert_eq!(groups[0], vec![c2]);
    assert_eq!(groups[1], vec![c1, c3]);
    assert!(groups[2].is_empty());
}

#[test]
fn grouper_with_no_parents_or_no_children() {
    let no_parents: Vec<i32> = Vec::new();
    let groups = group_comments_by_post(&no_parents, vec![comment(1, 5, "stray")]);
    assert!(groups.is_empty());
    let parents = vec![4, 9];
    let groups = group_comments_by_post(&parents, Vec::new());
    assert_eq!(groups.len(), 2);
    assert!(groups[0].is_empty());
    assert!(groups[1].is_empty());
}

#[test]
fn grouper_drops_children_with_unknown_keys() {
    let parents = vec![7];
    let kept = comment(1, 7, "kept");
    let stray = comment(2, 8, "stray");
    let groups = group_comments_by_post(&parents, vec![stray, kept.clone()]);
    assert_eq!(groups.len(), 1);
    assert_eq!(groups[0], vec![kept]);
}

#[test]
fn message_app_keeps_its_port() {
    let app = MessageApp::new(8080);
    assert_eq!(app.port(), 8080);
}
