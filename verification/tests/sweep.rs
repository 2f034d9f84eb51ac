use pingo_share::codec::encode;
use pingo_share::models::Upload;
use pingo_share::settings::{ExpirationAction, Settings};
use pingo_share::sweep::{
    action_for_tick, expire_upload, expiry, interval_seconds, is_due, parse_manifest,
    stored_files_of, sweep, Expiry, RecordChange,
};

fn upload(upload_id: &str, files: &str, expires_at: Option<i64>) -> Upload {
    Upload {
        id: 1,
        user_id: 7,
        upload_id: upload_id.to_string(),
        files: files.to_string(),
        total_size: 2048,
        email: None,
        download_url: format!("/download/{}", upload_id),
        created_at: 10,
        expires_at,
        is_available: true,
        is_reverse: false,
        reverse_token: None,
        is_deleted: false,
        deleted_at: None,
        deletion_reason: None,
    }
}

fn disk(names: &[&str]) -> Vec<String> {
    names.iter().map(|s| s.to_string()).collect()
}

fn remove_all(disk: &mut Vec<String>, removed: &[String]) {
    disk.retain(|f| !removed.contains(f));
}

#[test]
fn manifest_is_a_json_array_of_strings() {
    assert_eq!(
        parse_manifest("[\"a.txt\",\"b.txt\"]"),
        Some(vec!["a.txt".to_string(), "b.txt".to_string()])
    );
    assert_eq!(parse_manifest("[]"), Some(vec![]));
    assert_eq!(parse_manifest(" [ \"x\\ny\" ] "), Some(vec!["x\ny".to_string()]));
}

#[test]
fn unreadable_manifest_is_none() {
    assert_eq!(parse_manifest(""), None);
    assert_eq!(parse_manifest("a.txt"), None);
    assert_eq!(parse_manifest("[1,2]"), None);
    assert_eq!(parse_manifest("{\"a\":1}"), None);
    assert_eq!(parse_manifest("[\"a\"] x"), None);
}

#[test]
fn due_needs_a_passed_expiry_and_no_deletion() {
    assert!(is_due(&upload("u", "[]", Some(100)), 100));
    assert!(is_due(&upload("u", "[]", Some(100)), 101));
    assert!(!is_due(&upload("u", "[]", Some(100)), 99));
    assert!(!is_due(&upload("u", "[]", None), i64::MAX));
    let mut deleted = upload("u", "[]", Some(100));
    deleted.is_deleted = true;
    assert!(!is_due(&deleted, 200));
    let mut withdrawn = upload("u", "[]", Some(100));
    withdrawn.is_available = false;
    assert!(is_due(&withdrawn, 200));
}

#[test]
fn stored_files_follow_the_names() {
    let names = vec!["a.txt".to_string(), "".to_string(), "d/e.txt".to_string()];
    assert_eq!(
        stored_files_of("u1", &names),
        vec!["u1_a.txt".to_string(), "u1_d_e.txt".to_string()]
    );
}

#[test]
fn deletion_removes_files_and_marks_the_record() {
    let mut uploads = vec![upload("u1", "[\"a.txt\",\"b.txt\"]", Some(100))];
    let mut files = disk(&["u1_a.txt", "u1_b.txt", "u2_a.txt"]);
    let removed = sweep(&mut uploads, ExpirationAction::Delete, 150);
    remove_all(&mut files, &removed);
    assert!(!files.contains(&"u1_a.txt".to_string()));
    assert!(!files.contains(&"u1_b.txt".to_string()));
    assert_eq!(files, disk(&["u2_a.txt"]));
    assert!(uploads[0].is_deleted);
    assert_eq!(uploads[0].deletion_reason, Some("Expired".to_string()));
    assert_eq!(uploads[0].deleted_at, Some(150));
    assert!(uploads[0].is_available);
}

#[test]
fn withdrawal_keeps_files_and_record() {
    let mut uploads = vec![upload("u1", "[\"a.txt\",\"b.txt\"]", Some(100))];
    let mut files = disk(&["u1_a.txt", "u1_b.txt"]);
    let removed = sweep(&mut uploads, ExpirationAction::Unavailable, 150);
    remove_all(&mut files, &removed);
    assert_eq!(files, disk(&["u1_a.txt", "u1_b.txt"]));
    let mut expected = upload("u1", "[\"a.txt\",\"b.txt\"]", Some(100));
    expected.is_available = false;
    assert_eq!(uploads[0], expected);
    assert!(!uploads[0].is_deleted);
    assert_eq!(uploads[0].deletion_reason, None);
}

#[test]
fn second_tick_changes_nothing_under_deletion() {
    let mut uploads = vec![
        upload("u1", "[\"a.txt\"]", Some(100)),
        upload("u2", "[\"b.txt\"]", Some(500)),
        upload("u3", "[\"c.txt\"]", None),
    ];
    let first = sweep(&mut uploads, ExpirationAction::Delete, 150);
    assert_eq!(first, vec!["u1_a.txt".to_string()]);
    let after_first = uploads.clone();
    let second = sweep(&mut uploads, ExpirationAction::Delete, 160);
    assert_eq!(second, Vec::<String>::new());
    assert_eq!(uploads, after_first);
}

#[test]
fn second_tick_changes_nothing_under_withdrawal() {
    let mut uploads = vec![upload("u1", "[\"a.txt\"]", Some(100)), upload("u2", "[]", Some(500))];
    let first = sweep(&mut uploads, ExpirationAction::Unavailable, 150);
    assert_eq!(first, Vec::<String>::new());
    let after_first = uploads.clone();
    assert!(!after_first[0].is_available);
    assert!(after_first[1].is_available);
    let second = sweep(&mut uploads, ExpirationAction::Unavailable, 150);
    assert_eq!(second, Vec::<String>::new());
    assert_eq!(uploads, after_first);
}

#[test]
fn tick_spares_uploads_that_are_not_due() {
    let mut uploads = vec![upload("u1", "[\"a.txt\"]", Some(100)), upload("u2", "[\"b.txt\"]", None)];
    let before = uploads.clone();
    assert_eq!(sweep(&mut uploads, ExpirationAction::Delete, 99), Vec::<String>::new());
    assert_eq!(uploads, before);
}

#[test]
fn tick_removes_upload_after_upload() {
    let mut uploads = vec![
        upload("u1", "[\"a.txt\",\"b.txt\"]", Some(100)),
        upload("u2", "[\"c.txt\"]", Some(900)),
        upload("u3", "[\"d.txt\"]", Some(50)),
    ];
    let removed = sweep(&mut uploads, ExpirationAction::Delete, 100);
    assert_eq!(
        removed,
        vec!["u1_a.txt".to_string(), "u1_b.txt".to_string(), "u3_d.txt".to_string()]
    );
    assert!(uploads[0].is_deleted && !uploads[1].is_deleted && uploads[2].is_deleted);
}

#[test]
fn deletion_with_unreadable_manifest_still_marks_the_record() {
    let record = upload("u1", "not json", Some(100));
    assert_eq!(
        expire_upload(ExpirationAction::Delete, &record, 100),
        Some(Expiry {
            remove: vec![],
            change: RecordChange::MarkDeleted { at: 100, reason: "Expired".to_string() }
        })
    );
}

#[test]
fn expiry_names_the_stored_files() {
    let names = vec!["a.txt".to_string(), "b.txt".to_string()];
    let e = expiry(ExpirationAction::Delete, "u1", Some(&names), 77);
    assert_eq!(e.remove, vec![encode("u1", "a.txt").unwrap(), encode("u1", "b.txt").unwrap()]);
    assert_eq!(e.change, RecordChange::MarkDeleted { at: 77, reason: "Expired".to_string() });
    let e = expiry(ExpirationAction::Unavailable, "u1", Some(&names), 77);
    assert_eq!(e, Expiry { remove: vec![], change: RecordChange::MarkUnavailable });
    let e = expiry(ExpirationAction::Delete, "u1", None, 77);
    assert_eq!(e.remove, Vec::<String>::new());
}

#[test]
fn upload_that_is_not_due_has_no_expiry() {
    assert_eq!(expire_upload(ExpirationAction::Delete, &upload("u", "[]", Some(10)), 9), None);
    assert_eq!(expire_upload(ExpirationAction::Unavailable, &upload("u", "[]", None), 9), None);
}

#[test]
fn record_takes_a_change() {
    let mut u = upload("u", "[]", Some(10));
    u.record(&RecordChange::MarkUnavailable);
    assert!(!u.is_available);
    assert!(!u.is_deleted);
    u.record(&RecordChange::MarkDeleted { at: 5, reason: "Expired".to_string() });
    assert!(u.is_deleted);
    assert_eq!(u.deleted_at, Some(5));
    assert_eq!(u.deletion_reason, Some("Expired".to_string()));
    assert_eq!(u.files, "[]");
}

#[test]
fn tick_action_follows_the_configuration() {
    let mut s = Settings::default();
    assert_eq!(action_for_tick(None), None);
    assert_eq!(action_for_tick(Some(None)), Some(ExpirationAction::Unavailable));
    assert_eq!(action_for_tick(Some(Some(&s))), Some(ExpirationAction::Unavailable));
    s.expiration_action = "delete".to_string();
    assert_eq!(action_for_tick(Some(Some(&s))), Some(ExpirationAction::Delete));
    s.expiration_action = "purge".to_string();
    assert_eq!(action_for_tick(Some(Some(&s))), Some(ExpirationAction::Unavailable));
}

#[test]
fn interval_is_an_hour_unless_configured() {
    assert_eq!(interval_seconds(None), 3600);
    assert_eq!(interval_seconds(Some("60")), 60);
    assert_eq!(interval_seconds(Some("1")), 1);
    assert_eq!(interval_seconds(Some("0")), 3600);
    assert_eq!(interval_seconds(Some("-5")), 3600);
    assert_eq!(interval_seconds(Some("soon")), 3600);
    assert_eq!(interval_seconds(Some("")), 3600);
    assert_eq!(interval_seconds(Some("9223372036854775807")), 9223372036854775807);
    assert_eq!(interval_seconds(Some("9223372036854775808")), 3600);
}
