use pingo_share::access::{
    info_of, is_owner, resolve_access, resolve_identity, select_credential, upload_state, Access,
    AccessError, UploadInfo, UploadState,
};
use pingo_share::models::Upload;

fn upload(is_available: bool, owner_id: i32, is_deleted: bool) -> Option<UploadInfo> {
    Some(UploadInfo { is_available, owner_id, is_deleted })
}

#[test]
fn deleted_upload_is_never_found() {
    for available in [true, false] {
        for caller in [None, Some(7), Some(8), Some(-1)] {
            assert_eq!(resolve_access(upload(available, 7, true), caller), Err(AccessError::NotFound));
        }
    }
}

#[test]
fn withdrawn_upload_is_gone_for_others() {
    assert_eq!(resolve_access(upload(false, 7, false), Some(8)), Err(AccessError::Gone));
    assert_eq!(resolve_access(upload(false, 7, false), Some(-1)), Err(AccessError::Gone));
}

#[test]
fn withdrawn_upload_is_open_to_its_owner() {
    assert_eq!(
        resolve_access(upload(false, 7, false), Some(7)),
        Ok(Access { is_available: false, owner_id: 7 })
    );
}

#[test]
fn missing_upload_is_not_found() {
    assert_eq!(resolve_access(None, None), Err(AccessError::NotFound));
    assert_eq!(resolve_access(None, Some(1)), Err(AccessError::NotFound));
}

#[test]
fn withdrawn_upload_is_gone_for_anonymous_caller() {
    assert_eq!(resolve_access(upload(false, 7, false), None), Err(AccessError::Gone));
    assert_eq!(resolve_access(upload(false, -1, false), None), Err(AccessError::Gone));
}

#[test]
fn available_upload_is_open_to_everybody() {
    let open = Ok(Access { is_available: true, owner_id: 7 });
    assert_eq!(resolve_access(upload(true, 7, false), None), open);
    assert_eq!(resolve_access(upload(true, 7, false), Some(7)), open);
    assert_eq!(resolve_access(upload(true, 7, false), Some(99)), open);
}

#[test]
fn bearer_credential_is_preferred() {
    assert_eq!(
        select_credential(Some("bearer".to_string()), Some("cookie".to_string())),
        Some("bearer".to_string())
    );
    assert_eq!(select_credential(None, Some("cookie".to_string())), Some("cookie".to_string()));
    assert_eq!(select_credential(Some("bearer".to_string()), None), Some("bearer".to_string()));
    assert_eq!(select_credential(None, None), None);
}

#[test]
fn failed_verification_leaves_no_identity() {
    assert_eq!(resolve_identity(None), None);
    assert_eq!(resolve_identity(Some(None)), None);
    assert_eq!(resolve_identity(Some(Some(12))), Some(12));
}

#[test]
fn owner_is_recognized() {
    assert!(is_owner(Some(3), 3));
    assert!(!is_owner(Some(4), 3));
    assert!(!is_owner(None, 3));
}

#[test]
fn deletion_wins_over_availability() {
    let state = |is_available, is_deleted| {
        upload_state(&UploadInfo { is_available, owner_id: 1, is_deleted })
    };
    assert_eq!(state(true, false), UploadState::Active);
    assert_eq!(state(false, false), UploadState::Unavailable);
    assert_eq!(state(true, true), UploadState::Deleted);
    assert_eq!(state(false, true), UploadState::Deleted);
}

#[test]
fn access_reads_three_fields_of_the_record() {
    let record = Upload {
        id: 9,
        user_id: 42,
        upload_id: "abc".to_string(),
        files: "[]".to_string(),
        total_size: 0,
        email: None,
        download_url: String::new(),
        created_at: 0,
        expires_at: None,
        is_available: false,
        is_reverse: false,
        reverse_token: None,
        is_deleted: true,
        deleted_at: Some(5),
        deletion_reason: None,
    };
    assert_eq!(
        info_of(&record),
        UploadInfo { is_available: false, owner_id: 42, is_deleted: true }
    );
}
