//! The rules of the administrative actions: who may block or promote whom,
//! and which single settings can be switched.

use crate::models::{AdminStats, QuickSettingRequest};
use crate::text::same_text;
use vstd::prelude::*;

verus! {

/// Why an administrative action is refused.
#[derive(Debug, Clone, Copy, PartialEq, Eq, Structural)]
pub enum AdminError {
    /// The caller is no administrator.
    AdminRequired,
    /// An administrator cannot be blocked.
    CannotBlockAdmin,
    /// Only the first administrator may change roles.
    SuperAdminRequired,
    /// The user to change does not exist.
    UserNotFound,
    /// Nobody can take the administrator's role from themselves.
    CannotDemoteSelf,
    /// The last administrator cannot lose the role.
    LastAdmin,
    /// The value is not one that the setting can take.
    InvalidValue,
    /// There is no such setting to switch.
    UnknownSetting,
}

/// The kind of refusal, as the caller reports it.
#[derive(Debug, Clone, Copy, PartialEq, Eq, Structural)]
pub enum Refusal {
    Forbidden,
    NotFound,
    BadRequest,
}

/// The user who alone may change roles.
pub const SUPER_ADMIN: i32 = 1;

/// The kind of each refusal.
pub open spec fn refusal_of(e: AdminError) -> Refusal {
    match e {
        AdminError::AdminRequired => Refusal::Forbidden,
        AdminError::CannotBlockAdmin => Refusal::Forbidden,
        AdminError::SuperAdminRequired => Refusal::Forbidden,
        AdminError::UserNotFound => Refusal::NotFound,
        AdminError::CannotDemoteSelf => Refusal::BadRequest,
        AdminError::LastAdmin => Refusal::BadRequest,
        AdminError::InvalidValue => Refusal::BadRequest,
        AdminError::UnknownSetting => Refusal::BadRequest,
    }
}

/// What each refusal tells the caller.
pub open spec fn message_of(e: AdminError) -> Seq<char> {
    match e {
        AdminError::AdminRequired => "Admin access required"@,
        AdminError::CannotBlockAdmin => "Cannot block admin users"@,
        AdminError::SuperAdminRequired => "Only the super admin can manage user roles"@,
        AdminError::UserNotFound => "User not found"@,
        AdminError::CannotDemoteSelf => "Cannot demote yourself"@,
        AdminError::LastAdmin => "Cannot demote the last admin user"@,
        AdminError::InvalidValue => "Invalid value for allowRegistration"@,
        AdminError::UnknownSetting => "Unknown setting"@,
    }
}

/// The rule for blocking: an administrator cannot be blocked; everybody can
/// be unblocked.
pub open spec fn blocking(target_is_admin: bool, blocked: bool) -> Result<(), AdminError> {
    if target_is_admin && blocked {
        Err(AdminError::CannotBlockAdmin)
    } else {
        Ok(())
    }
}

/// The rule for changing a role. Only the first administrator changes roles;
/// the user must exist; nobody demotes themselves; and a demotion must leave
/// another administrator, whose number `other_admins` gives where it was
/// counted.
pub open spec fn role_change(
    admin_id: int,
    target_id: int,
    promote: bool,
    target_exists: bool,
    other_admins: Option<int>,
) -> Result<(), AdminError> {
    if admin_id != SUPER_ADMIN {
        Err(AdminError::SuperAdminRequired)
    } else if !target_exists {
        Err(AdminError::UserNotFound)
    } else if target_id == admin_id && !promote {
        Err(AdminError::CannotDemoteSelf)
    } else if !promote && other_admins == Some(0int) {
        Err(AdminError::LastAdmin)
    } else {
        Ok(())
    }
}

/// The rule for switching a single setting: only the registration switch can
/// be switched, and only to a truth value.
pub open spec fn quick_switch(setting: Seq<char>, value: Option<bool>) -> Result<bool, AdminError> {
    if setting == "allowRegistration"@ {
        match value {
            Some(v) => Ok(v),
            None => Err(AdminError::InvalidValue),
        }
    } else {
        Err(AdminError::UnknownSetting)
    }
}

impl AdminError {
    /// The kind of the refusal.
    pub fn refusal(&self) -> (r: Refusal)
        ensures
            r == refusal_of(*self),
    {
        match self {
            AdminError::AdminRequired => Refusal::Forbidden,
            AdminError::CannotBlockAdmin => Refusal::Forbidden,
            AdminError::SuperAdminRequired => Refusal::Forbidden,
            AdminError::UserNotFound => Refusal::NotFound,
            AdminError::CannotDemoteSelf => Refusal::BadRequest,
            AdminError::LastAdmin => Refusal::BadRequest,
            AdminError::InvalidValue => Refusal::BadRequest,
            AdminError::UnknownSetting => Refusal::BadRequest,
        }
    }

    /// What the refusal tells the caller.
    pub fn message(&self) -> (r: &'static str)
        ensures
            r@ == message_of(*self),
    {
        match self {
            AdminError::AdminRequired => "Admin access required",
            AdminError::CannotBlockAdmin => "Cannot block admin users",
            AdminError::SuperAdminRequired => "Only the super admin can manage user roles",
            AdminError::UserNotFound => "User not found",
            AdminError::CannotDemoteSelf => "Cannot demote yourself",
            AdminError::LastAdmin => "Cannot demote the last admin user",
            AdminError::InvalidValue => "Invalid value for allowRegistration",
            AdminError::UnknownSetting => "Unknown setting",
        }
    }
}

/// Whether the caller may act as an administrator, given what the check of
/// their role returned, or `None` where the check failed. A failed check
/// counts as no.
pub fn require_admin(check: Option<bool>) -> (r: Result<(), AdminError>)
    ensures
        r == (if check == Some(true) {
            Ok::<(), AdminError>(())
        } else {
            Err::<(), AdminError>(AdminError::AdminRequired)
        }),
{
    match check {
        Some(true) => Ok(()),
        _ => Err(AdminError::AdminRequired),
    }
}

/// Whether a user may be blocked or unblocked.
pub fn check_block(target_is_admin: bool, blocked: bool) -> (r: Result<(), AdminError>)
    ensures
        r == blocking(target_is_admin, blocked),
{
    if target_is_admin && blocked {
        Err(AdminError::CannotBlockAdmin)
    } else {
        Ok(())
    }
}

/// What a caller is told after a user has been blocked or unblocked.
pub fn block_message(blocked: bool) -> (r: &'static str)
    ensures
        r@ == (if blocked {
            "User blocked successfully"@
        } else {
            "User unblocked successfully"@
        }),
{
    if blocked {
        "User blocked successfully"
    } else {
        "User unblocked successfully"
    }
}

/// Whether a user may be given or lose the administrator's role.
pub fn check_role_change(
    admin_id: i32,
    target_id: i32,
    promote: bool,
    target_exists: bool,
    other_admins: Option<i64>,
) -> (r: Result<(), AdminError>)
    ensures
        r == role_change(
            admin_id as int,
            target_id as int,
            promote,
            target_exists,
            match other_admins {
                Some(n) => Some(n as int),
                None => None,
            },
        ),
{
    if admin_id != SUPER_ADMIN {
        Err(AdminError::SuperAdminRequired)
    } else if !target_exists {
        Err(AdminError::UserNotFound)
    } else if target_id == admin_id && !promote {
        Err(AdminError::CannotDemoteSelf)
    } else if !promote && is_zero(other_admins) {
        Err(AdminError::LastAdmin)
    } else {
        Ok(())
    }
}

/// Whether a count was made and found nothing.
fn is_zero(count: Option<i64>) -> (r: bool)
    ensures
        r == (count == Some(0i64)),
{
    match count {
        Some(n) => n == 0,
        None => false,
    }
}

/// What a caller is told after a role has been changed.
pub fn role_message(promote: bool) -> (r: &'static str)
    ensures
        r@ == (if promote {
            "User promoted to admin successfully"@
        } else {
            "User demoted from admin successfully"@
        }),
{
    if promote {
        "User promoted to admin successfully"
    } else {
        "User demoted from admin successfully"
    }
}

/// The new value of the registration switch that a request asks for.
pub fn quick_setting(request: &QuickSettingRequest) -> (r: Result<bool, AdminError>)
    ensures
        r == quick_switch(request.setting@, request.value),
{
    if same_text(request.setting.as_str(), "allowRegistration") {
        match request.value {
            Some(v) => Ok(v),
            None => Err(AdminError::InvalidValue),
        }
    } else {
        Err(AdminError::UnknownSetting)
    }
}

/// The figures of the service; a store without uploads has used no storage.
pub fn admin_stats(total_users: i64, total_uploads: i64, storage_used: Option<i64>) -> (r:
    AdminStats)
    ensures
        r == (AdminStats {
            total_users,
            total_uploads,
            storage_used: match storage_used {
                Some(n) => n,
                None => 0,
            },
        }),
{
    AdminStats {
        total_users,
        total_uploads,
        storage_used: match storage_used {
            Some(n) => n,
            None => 0,
        },
    }
}

} // verus!
