//! The records of the store and the bodies of requests and responses, as
//! plain data. A point in time is a number of seconds since the Unix epoch.

use vstd::prelude::*;

verus! {

/// A registered user.
#[derive(Debug, Clone, PartialEq, Eq)]
pub struct User {
    pub id: i32,
    pub username: String,
    pub email: String,
    pub password_hash: String,
    pub is_admin: bool,
    pub is_blocked: Option<bool>,
    pub avatar: Option<String>,
    pub created_at: i64,
}

/// One shareable set of files.
#[derive(Debug, Clone, PartialEq, Eq)]
pub struct Upload {
    pub id: i32,
    /// The user who created the upload.
    pub user_id: i32,
    /// The identifier under which the upload is shared.
    pub upload_id: String,
    /// The original names of the files, as a JSON array of strings.
    pub files: String,
    /// The sum of the sizes of the files, in bytes.
    pub total_size: i64,
    pub email: Option<String>,
    pub download_url: String,
    pub created_at: i64,
    /// When the upload expires; `None` if it never does.
    pub expires_at: Option<i64>,
    /// Whether anybody may fetch the upload, or only its owner.
    pub is_available: bool,
    pub is_reverse: bool,
    pub reverse_token: Option<String>,
    /// Whether the upload has been deleted.
    pub is_deleted: bool,
    pub deleted_at: Option<i64>,
    pub deletion_reason: Option<String>,
}

/// A token that lets somebody else upload on a user's behalf.
#[derive(Debug, Clone, PartialEq, Eq)]
pub struct ReverseShareToken {
    pub id: i32,
    pub user_id: i32,
    pub token: String,
    pub name: String,
    pub used_count: i32,
    pub max_uses: i32,
    pub created_at: i64,
    pub expires_at: Option<i64>,
}

/// What is kept of an upload after its deletion.
#[derive(Debug, Clone, PartialEq, Eq)]
pub struct DeletionLog {
    pub id: i32,
    pub user_id: Option<i32>,
    pub username: String,
    pub upload_id: String,
    pub files: String,
    pub total_size: i64,
    pub email: Option<String>,
    pub download_url: String,
    pub uploaded_at: i64,
    pub deleted_at: i64,
    pub expires_at: Option<i64>,
    pub is_reverse: bool,
    pub reverse_token: Option<String>,
    pub deletion_reason: String,
}

#[derive(Debug, Clone, PartialEq, Eq)]
pub struct RegisterRequest {
    pub username: String,
    pub email: String,
    pub password: String,
}

#[derive(Debug, Clone, PartialEq, Eq)]
pub struct LoginRequest {
    pub username_or_email: String,
    pub password: String,
}

#[derive(Debug, Clone, PartialEq, Eq)]
pub struct AuthResponse {
    pub message: String,
    pub token: String,
    pub user: UserInfo,
}

#[derive(Debug, Clone, PartialEq, Eq)]
pub struct UserInfo {
    pub id: i32,
    pub username: String,
    pub email: String,
    pub is_admin: bool,
    pub avatar: Option<String>,
}

#[derive(Debug, Clone, PartialEq, Eq)]
pub struct UploadResponse {
    pub download_url: String,
    pub files: Vec<String>,
    pub count: usize,
    pub expires_at: Option<i64>,
}

#[derive(Debug, Clone, Copy, PartialEq, Eq, Structural)]
pub struct AvailabilityRequest {
    pub is_available: bool,
}

#[derive(Debug, Clone, PartialEq, Eq)]
pub struct ExpirationRequest {
    pub validity: String,
}

#[derive(Debug, Clone, PartialEq, Eq)]
pub struct CreateTokenRequest {
    pub name: String,
    pub max_uses: i32,
    pub expires_in: Option<String>,
}

#[derive(Debug, Clone, Copy, PartialEq, Eq, Structural)]
pub struct BlockUserRequest {
    pub blocked: bool,
}

#[derive(Debug, Clone, Copy, PartialEq, Eq, Structural)]
pub struct PromoteUserRequest {
    pub promote: bool,
}

/// The change of a single switch of the configuration.
#[derive(Debug, Clone, PartialEq, Eq)]
pub struct QuickSettingRequest {
    /// The name of the switch.
    pub setting: String,
    /// The submitted value, where it is a truth value.
    pub value: Option<bool>,
}

#[derive(Debug, Clone, Copy, PartialEq, Eq, Structural)]
pub struct AdminStats {
    pub total_users: i64,
    pub total_uploads: i64,
    pub storage_used: i64,
}

#[derive(Debug, Clone, PartialEq, Eq)]
pub struct AdminUser {
    pub id: i32,
    pub username: String,
    pub email: String,
    pub avatar: Option<String>,
    pub is_admin: bool,
    pub is_blocked: bool,
    pub upload_count: i64,
    pub storage_used: i64,
    pub created_at: i64,
    pub last_activity: Option<i64>,
}

/// One file of an upload, as the listing shows it.
#[derive(Debug, Clone, PartialEq, Eq)]
pub struct FileInfo {
    /// The name of the file inside its upload.
    pub name: String,
    /// Its size in bytes.
    pub size: u64,
    /// Where the file can be fetched.
    pub url: String,
}

/// The uploader, as the listing shows them.
#[derive(Debug, Clone, PartialEq, Eq)]
pub struct UploaderInfo {
    pub username: String,
    pub avatar: String,
    pub email: Option<String>,
    pub expiration_date: Option<i64>,
}

/// The listing of an upload.
#[derive(Debug, Clone, PartialEq, Eq)]
pub struct FilesMetadataResponse {
    pub files: Vec<FileInfo>,
    pub uploader: UploaderInfo,
}

} // verus!
