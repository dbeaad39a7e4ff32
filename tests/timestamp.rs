use repo_actions::identity::{resolve_actor, Platform};
use repo_actions::timestamp::{format_timestamp, Stamp};

#[test]
fn epoch_zero_formats_as_first_bucket() {
    assert_eq!(format_timestamp(0), "1970-01-01_00-00-00");
}

#[test]
fn known_instant_uses_fixed_buckets() {
    assert_eq!(format_timestamp(1700000000), "2023-12-01_22-13-20");
}

#[test]
fn small_values_are_zero_padded() {
    assert_eq!(format_timestamp(3661), "1970-01-01_01-01-01");
    assert_eq!(format_timestamp(86399), "1970-01-01_23-59-59");
}

#[test]
fn last_second_of_year_bucket_reaches_month_thirteen() {
    assert_eq!(format_timestamp(31535999), "1970-13-05_23-59-59");
    assert_eq!(format_timestamp(31536000), "1971-01-01_00-00-00");
}

#[test]
fn largest_input_keeps_whole_year() {
    assert_eq!(format_timestamp(u64::MAX), "584942419325-01-27_07-00-15");
}

#[test]
fn stamp_parts_of_known_instant() {
    let s = Stamp::from_epoch_seconds(1700000000);
    assert_eq!(
        (s.year, s.month, s.day, s.hour, s.minute, s.second),
        (2023, 12, 1, 22, 13, 20)
    );
}

#[test]
fn actor_defaults_to_unknown() {
    assert_eq!(resolve_actor(None), "unknown");
}

#[test]
fn actor_keeps_environment_value() {
    assert_eq!(resolve_actor(Some("alice".to_string())), "alice");
}

#[test]
fn actor_variable_per_platform() {
    assert_eq!(Platform::Windows.actor_variable(), "USERNAME");
    assert_eq!(Platform::Unix.actor_variable(), "USER");
}
