use change_shelf::dashboard::view_card_details;
use change_shelf::repo::{CommitInfo, FetchError};
use change_shelf::timefmt::system_time_to_string;

fn commit(id: &str, summary: &str, author: &str, secs: i64) -> CommitInfo {
    CommitInfo {
        commit_id: id.to_string(),
        summary: summary.to_string(),
        author: author.to_string(),
        timestamp_secs: secs,
        timestamp_nanos: 0,
    }
}

#[test]
fn rows_carry_the_commit_fields_in_order() {
    let commits = Ok(vec![
        commit("c1", "first", "ada", 0),
        commit("c2", "second", "grace", 1_431_648_000),
    ]);
    let v = view_card_details(&commits);
    assert!(v.error.is_none());
    assert_eq!(v.rows.len(), 2);
    assert_eq!(v.rows[0].commit_id, "c1".to_string());
    assert_eq!(v.rows[0].summary, "first".to_string());
    assert_eq!(v.rows[0].author, "ada".to_string());
    assert_eq!(v.rows[1].commit_id, "c2".to_string());
}

#[test]
fn row_stamps_are_the_utc_rendering() {
    let commits = Ok(vec![
        commit("c1", "first", "ada", 0),
        commit("c2", "second", "grace", 1_431_648_000),
    ]);
    let v = view_card_details(&commits);
    assert_eq!(v.rows[0].time_text, Some("1970-01-01 00:00:00".to_string()));
    assert_eq!(v.rows[1].time_text, Some("2015-05-15 00:00:00".to_string()));
}

#[test]
fn listing_failure_becomes_an_error_state() {
    let commits = Err(FetchError { message: "listing failed".to_string() });
    let v = view_card_details(&commits);
    assert!(v.rows.is_empty());
    assert_eq!(v.error, Some("listing failed".to_string()));
}

#[test]
fn utc_rendering_handles_the_edges() {
    let mut far = commit("c1", "late", "ada", 253_402_300_799);
    far.timestamp_nanos = 999_999_999;
    let mut odd = commit("c2", "odd", "ada", 0);
    odd.timestamp_nanos = 2_000_000_000;
    let v = view_card_details(&Ok(vec![far, odd]));
    assert_eq!(v.rows[0].time_text, Some("9999-12-31 23:59:59".to_string()));
    // A nanosecond part of two full seconds or more never renders.
    assert_eq!(v.rows[1].time_text, None);
}

#[test]
fn local_rendering_exists_for_ordinary_stamps() {
    assert!(system_time_to_string(1_431_648_000, 0).is_some());
    assert!(system_time_to_string(0, 2_000_000_000).is_none());
}
