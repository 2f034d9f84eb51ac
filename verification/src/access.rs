//! Who may see an upload.
//!
//! Whether a request may see an upload depends on three things: whether the
//! upload exists and has not been deleted, whether it is available, and who
//! asks. The decision only reads; it never changes an upload. Every surface
//! that serves files or lists them asks this one function.

use crate::models::Upload;
use vstd::prelude::*;

verus! {

/// What the store knows of an upload, as far as access is concerned.
#[derive(Debug, Clone, Copy, PartialEq, Eq, Structural)]
pub struct UploadInfo {
    /// Whether anybody may fetch the upload, or only its owner.
    pub is_available: bool,
    /// The user who created the upload.
    pub owner_id: i32,
    /// Whether the upload has been deleted. A deleted upload is gone for
    /// everybody, whatever the other two fields say.
    pub is_deleted: bool,
}

/// The state of an upload. The record keeps two flags; where both are set,
/// deletion wins.
#[derive(Debug, Clone, Copy, PartialEq, Eq, Structural)]
pub enum UploadState {
    /// Anybody may fetch the upload.
    Active,
    /// Only the owner may fetch the upload.
    Unavailable,
    /// The upload is gone for everybody.
    Deleted,
}

/// The state that the two flags of a record stand for.
pub open spec fn state_of(upload: UploadInfo) -> UploadState {
    if upload.is_deleted {
        UploadState::Deleted
    } else if upload.is_available {
        UploadState::Active
    } else {
        UploadState::Unavailable
    }
}

/// Why access is refused.
#[derive(Debug, Clone, Copy, PartialEq, Eq, Structural)]
pub enum AccessError {
    /// There is no such upload, or it has been deleted.
    NotFound,
    /// The upload exists but has been withdrawn from this caller.
    Gone,
}

/// What the surface that asked is handed.
#[derive(Debug, Clone, Copy, PartialEq, Eq, Structural)]
pub struct Access {
    pub is_available: bool,
    pub owner_id: i32,
}

/// The rule of access. `caller` is the verified identity of the request, or
/// `None` for a request without one.
pub open spec fn access_rule(upload: Option<UploadInfo>, caller: Option<i32>) -> Result<
    Access,
    AccessError,
> {
    match upload {
        None => Err(AccessError::NotFound),
        Some(u) => if u.is_deleted {
            Err(AccessError::NotFound)
        } else if !u.is_available && caller != Some(u.owner_id) {
            Err(AccessError::Gone)
        } else {
            Ok(Access { is_available: u.is_available, owner_id: u.owner_id })
        },
    }
}

/// What the access decision reads of an upload's record.
pub fn info_of(upload: &Upload) -> (info: UploadInfo)
    ensures
        info == (UploadInfo {
            is_available: upload.is_available,
            owner_id: upload.user_id,
            is_deleted: upload.is_deleted,
        }),
{
    UploadInfo {
        is_available: upload.is_available,
        owner_id: upload.user_id,
        is_deleted: upload.is_deleted,
    }
}

/// The state of an upload.
pub fn upload_state(upload: &UploadInfo) -> (state: UploadState)
    ensures
        state == state_of(*upload),
{
    if upload.is_deleted {
        UploadState::Deleted
    } else if upload.is_available {
        UploadState::Active
    } else {
        UploadState::Unavailable
    }
}

/// The credential to verify: the one from the authorization header where the
/// request has one, else the one from the cookie.
pub fn select_credential(bearer: Option<String>, cookie: Option<String>) -> (r: Option<String>)
    ensures
        r == (match bearer {
            Some(b) => Some(b),
            None => cookie,
        }),
{
    match bearer {
        Some(b) => Some(b),
        None => cookie,
    }
}

/// The caller's identity, given what the verification of the selected
/// credential returned, if a credential was presented at all. A credential
/// that fails verification leaves the request without identity; it does not
/// fail the request.
pub fn resolve_identity(verification: Option<Option<i32>>) -> (r: Option<i32>)
    ensures
        r == (match verification {
            Some(Some(user)) => Some(user),
            _ => None,
        }),
{
    match verification {
        Some(Some(user)) => Some(user),
        _ => None,
    }
}

/// Decides whether `caller` may see the upload that the store returned for
/// the requested identifier.
///
/// A missing or deleted upload is `NotFound` for everybody. An upload that is
/// not available is `Gone` for everybody but its owner. In every other case
/// the caller gets the upload's availability and owner.
pub fn resolve_access(upload: Option<UploadInfo>, caller: Option<i32>) -> (r: Result<
    Access,
    AccessError,
>)
    ensures
        r == access_rule(upload, caller),
{
    match upload {
        None => Err(AccessError::NotFound),
        Some(u) => {
            if u.is_deleted {
                Err(AccessError::NotFound)
            } else if !u.is_available && !is_owner(caller, u.owner_id) {
                Err(AccessError::Gone)
            } else {
                Ok(Access { is_available: u.is_available, owner_id: u.owner_id })
            }
        },
    }
}

/// Whether `caller` is the user `owner_id`.
pub fn is_owner(caller: Option<i32>, owner_id: i32) -> (r: bool)
    ensures
        r == (caller == Some(owner_id)),
{
    match caller {
        Some(user) => user == owner_id,
        None => false,
    }
}

/// A deleted upload is never found, whoever asks and whatever its
/// availability.
pub proof fn deleted_is_not_found(upload: UploadInfo, caller: Option<i32>)
    requires
        upload.is_deleted,
    ensures
        access_rule(Some(upload), caller) == Err::<Access, AccessError>(AccessError::NotFound),
{
}

/// An upload that is not available is gone for every caller but its owner,
/// and open to its owner.
pub proof fn withdrawn_is_gone_but_for_owner(upload: UploadInfo, caller: Option<i32>)
    requires
        !upload.is_deleted,
        !upload.is_available,
    ensures
        caller != Some(upload.owner_id) ==> access_rule(Some(upload), caller) == Err::<
            Access,
            AccessError,
        >(AccessError::Gone),
        access_rule(Some(upload), Some(upload.owner_id)) == Ok::<Access, AccessError>(
            Access { is_available: false, owner_id: upload.owner_id },
        ),
{
}

/// An upload that does not exist is not found, and an existing upload that is
/// not available is gone for a caller without identity.
pub proof fn missing_and_withdrawn(upload: UploadInfo, caller: Option<i32>)
    requires
        !upload.is_deleted,
        !upload.is_available,
    ensures
        access_rule(None, caller) == Err::<Access, AccessError>(AccessError::NotFound),
        access_rule(Some(upload), None) == Err::<Access, AccessError>(AccessError::Gone),
{
}

/// Access is granted exactly for an upload that exists, is not deleted, and is available or asked for by its owner.
pub proof fn access_granted_exactly(upload: Option<UploadInfo>, caller: Option<i32>)
    ensures
        access_rule(upload, caller) is Ok <==> (upload matches Some(u) && !u.is_deleted && (u.is_available
            || caller == Some(u.owner_id))),
{
}

/// Access follows the state of the upload: a deleted upload is not found, an
/// unavailable one is open to its owner and gone for everybody else, and an
/// active one is open to everybody.
pub proof fn access_follows_state(upload: UploadInfo, caller: Option<i32>)
    ensures
        match state_of(upload) {
            UploadState::Deleted => access_rule(Some(upload), caller) == Err::<
                Access,
                AccessError,
            >(AccessError::NotFound),
            UploadState::Unavailable => if caller == Some(upload.owner_id) {
                access_rule(Some(upload), caller) is Ok
            } else {
                access_rule(Some(upload), caller) == Err::<Access, AccessError>(AccessError::Gone)
            },
            UploadState::Active => access_rule(Some(upload), caller) is Ok,
        },
{
}

} // verus!
