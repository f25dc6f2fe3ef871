use chrono::TimeZone;
use chrono::Utc;
use user_service::audit::Audit;
use user_service::created_at::CreatedAt;
use user_service::created_by::CreatedBy;
use user_service::updated_at::UpdatedAt;
use user_service::updated_by::UpdatedBy;

#[test]
fn created_at_test_now_creates_current_timestamp() {
    let created_at = CreatedAt::now();
    let now = Utc::now();

    // Should be within 1 second of each other
    assert!((created_at.timestamp() - now.timestamp()).abs() <= 1);
}

#[test]
fn created_at_test_from_datetime() {
    let datetime = Utc.with_ymd_and_hms(2024, 1, 15, 10, 30, 0).unwrap();
    let created_at = CreatedAt::from_timestamp_millis(datetime.timestamp_millis());

    assert_eq!(created_at.timestamp_millis(), datetime.timestamp_millis());
}

#[test]
fn created_at_test_display_formatting() {
    let datetime = Utc.with_ymd_and_hms(2024, 1, 15, 10, 30, 0).unwrap();
    let created_at = CreatedAt::from_timestamp_millis(datetime.timestamp_millis());

    let display = created_at.to_rfc3339();
    assert!(display.contains("2024-01-15"));
}

#[test]
fn created_at_test_ordering() {
    let earlier = CreatedAt::from_timestamp_millis(
        Utc.with_ymd_and_hms(2024, 1, 15, 10, 0, 0)
            .unwrap()
            .timestamp_millis(),
    );
    let later = CreatedAt::from_timestamp_millis(
        Utc.with_ymd_and_hms(2024, 1, 15, 11, 0, 0)
            .unwrap()
            .timestamp_millis(),
    );

    assert!(earlier < later);
    assert!(later > earlier);
}

#[test]
fn created_at_test_clone_and_copy() {
    let created_at = CreatedAt::now();
    let cloned = created_at.clone();
    let copied = created_at;

    assert_eq!(created_at, cloned);
    assert_eq!(created_at, copied);
}

#[test]
fn created_at_test_timestamp_methods() {
    let datetime = Utc.with_ymd_and_hms(2024, 1, 15, 10, 30, 0).unwrap();
    let created_at = CreatedAt::from_timestamp_millis(datetime.timestamp_millis());

    assert_eq!(created_at.timestamp(), datetime.timestamp());
    assert_eq!(created_at.timestamp_millis(), datetime.timestamp_millis());
}

#[test]
fn updated_at_test_now_creates_current_timestamp() {
    let updated_at = UpdatedAt::now();
    let now = Utc::now();

    assert!((updated_at.timestamp() - now.timestamp()).abs() <= 1);
}

#[test]
fn updated_at_test_from_datetime() {
    let datetime = Utc.with_ymd_and_hms(2024, 1, 15, 10, 30, 0).unwrap();
    let updated_at = UpdatedAt::from_timestamp_millis(datetime.timestamp_millis());

    assert_eq!(updated_at.timestamp_millis(), datetime.timestamp_millis());
}

#[test]
fn test_to_rfc3339() {
    let datetime = Utc.with_ymd_and_hms(2023, 1, 1, 12, 0, 0).unwrap();
    let updated_at = UpdatedAt::from_timestamp_millis(datetime.timestamp_millis());

    assert_eq!(updated_at.to_rfc3339(), "2023-01-01T12:00:00+00:00");
}

#[test]
fn updated_at_test_ordering() {
    let earlier = UpdatedAt::from_timestamp_millis(
        Utc.with_ymd_and_hms(2024, 1, 15, 10, 0, 0)
            .unwrap()
            .timestamp_millis(),
    );
    let later = UpdatedAt::from_timestamp_millis(
        Utc.with_ymd_and_hms(2024, 1, 15, 11, 0, 0)
            .unwrap()
            .timestamp_millis(),
    );

    assert!(earlier < later);
    assert!(later > earlier);
}

#[test]
fn updated_at_test_display_formatting() {
    let datetime = Utc.with_ymd_and_hms(2024, 1, 15, 10, 30, 0).unwrap();
    let updated_at = UpdatedAt::from_timestamp_millis(datetime.timestamp_millis());

    let display = updated_at.to_rfc3339();
    assert!(display.contains("2024-01-15"));
}

#[test]
fn updated_at_test_timestamp_methods() {
    let datetime = Utc.with_ymd_and_hms(2024, 1, 15, 10, 30, 0).unwrap();
    let updated_at = UpdatedAt::from_timestamp_millis(datetime.timestamp_millis());

    assert_eq!(updated_at.timestamp(), datetime.timestamp());
    assert_eq!(updated_at.timestamp_millis(), datetime.timestamp_millis());
}

#[test]
fn updated_at_test_clone_and_copy() {
    let updated_at = UpdatedAt::now();
    let cloned = updated_at.clone();
    let copied = updated_at;

    assert_eq!(updated_at, cloned);
    assert_eq!(updated_at, copied);
}

#[test]
fn test_timestamp_of_negative_instant_floors() {
    let before_epoch = CreatedAt::from_timestamp_millis(-1);
    assert_eq!(before_epoch.timestamp(), -1);
    let exactly = CreatedAt::from_timestamp_millis(-1000);
    assert_eq!(exactly.timestamp(), -1);
}

#[test]
fn created_by_display() {
    let created_by = CreatedBy::new("user123");
    assert_eq!(created_by.as_str(), "user123");
}

#[test]
fn created_by_as_str() {
    let created_by = CreatedBy::new("user123");
    assert_eq!(created_by.as_str(), "user123");
}

#[test]
fn created_by_from_string_and_str() {
    let s = String::from("alice");
    let from_string: CreatedBy = s.clone().into();
    let from_str: CreatedBy = "alice".into();
    assert_eq!(from_string.as_str(), "alice");
    assert_eq!(from_str.as_str(), "alice");
}

#[test]
fn updated_by_display() {
    let updated_by = UpdatedBy::new("user123");
    assert_eq!(updated_by.as_str(), "user123");
}

#[test]
fn updated_by_as_str() {
    let updated_by = UpdatedBy::new("user123");
    assert_eq!(updated_by.as_str(), "user123");
}

#[test]
fn test_audit_with_created_at() {
    let instant = CreatedAt::from_timestamp_millis(1_700_000_000_000);
    let audit = Audit::with_created_at(instant);
    assert_eq!(audit.created_at, instant);
    assert!(audit.updated_at.is_none());
    assert!(audit.created_by.is_none());
    assert!(audit.updated_by.is_none());
}
