//! Prepaid codes, user profiles and their administration.
use vstd::prelude::*;

use crate::ids::Uuid;
use crate::server::error::{AppError, AppErrorModel};
use crate::server::submit;
use crate::server::submit::CodeRow;
use crate::shared::tier::UserTier;
use crate::text::concat3;
use crate::time::Timestamp;

verus! {

// ---------------------------------------------------------------------------
// Administration
// ---------------------------------------------------------------------------

/// The body of `POST /admin/codes`.
#[derive(Debug)]
pub struct CreateCodeRequest {
    pub granted_tier: String,
    pub total_jobs: i32,
    pub issued_to: Option<Uuid>,
    pub expires_at: Option<Timestamp>,
}

/// The answer to `POST /admin/codes`.
#[derive(Debug, Clone, Copy, PartialEq, Eq, Structural)]
pub struct CreateCodeResponse {
    pub code: Uuid,
}

/// What stands in the way of a new code. The tier is looked at first.
pub open spec fn code_error(body: CreateCodeRequest) -> Option<AppErrorModel> {
    if UserTier::named(body.granted_tier@) is None {
        Some(
            AppErrorModel::Validation(
                "invalid granted_tier '"@ + body.granted_tier@
                    + "': must be one of demo, free, pro"@,
            ),
        )
    } else if body.total_jobs < 1 {
        Some(AppErrorModel::Validation("total_jobs must be at least 1"@))
    } else {
        None
    }
}

/// `POST /admin/codes`: validates a new prepaid code.
pub fn create_code(body: &CreateCodeRequest) -> (r: Result<(), AppError>)
    ensures
        match r {
            Ok(()) => code_error(*body) is None,
            Err(error) => code_error(*body) == Some(error@),
        },
{
    if UserTier::from_str(body.granted_tier.as_str()).is_none() {
        return Err(
            AppError::Validation(
                concat3(
                    "invalid granted_tier '",
                    body.granted_tier.as_str(),
                    "': must be one of demo, free, pro",
                ),
            ),
        );
    }
    if body.total_jobs < 1 {
        return Err(AppError::Validation("total_jobs must be at least 1".to_owned()));
    }
    Ok(())
}

/// What the administration sees of a user.
#[derive(Debug)]
pub struct UserSummary {
    pub id: Uuid,
    pub display_name: Option<String>,
    pub tier: String,
    pub created_at: Timestamp,
}

/// The body of `PATCH /admin/users/:id/tier`.
#[derive(Debug)]
pub struct SetTierRequest {
    pub tier: String,
}

/// `PATCH /admin/users/:id/tier`: validates the tier that a user is to get.
pub fn check_tier(body: &SetTierRequest) -> (r: Result<(), AppError>)
    ensures
        match r {
            Ok(()) => UserTier::named(body.tier@) is Some,
            Err(error) => UserTier::named(body.tier@) is None && error@
                == AppErrorModel::Validation(
                "invalid tier '"@ + body.tier@ + "': must be one of demo, free, pro"@,
            ),
        },
{
    if UserTier::from_str(body.tier.as_str()).is_none() {
        return Err(
            AppError::Validation(
                concat3(
                    "invalid tier '",
                    body.tier.as_str(),
                    "': must be one of demo, free, pro",
                ),
            ),
        );
    }
    Ok(())
}

/// `PATCH /admin/users/:id/tier`: what is made of the update, which changed this
/// many rows.
pub fn set_user_tier(rows_affected: u64) -> (r: Result<(), AppError>)
    ensures
        match r {
            Ok(()) => rows_affected > 0,
            Err(error) => rows_affected == 0 && error@ == AppErrorModel::JobNotFound,
        },
{
    if rows_affected == 0 {
        Err(AppError::JobNotFound)
    } else {
        Ok(())
    }
}

// ---------------------------------------------------------------------------
// Prepaid codes
// ---------------------------------------------------------------------------

/// Public information on a prepaid code. Holds no sensitive data such as
/// `issued_to`.
#[derive(Debug)]
pub struct CodeInfoResponse {
    pub code: Uuid,
    /// Capacity tier of the jobs paid with this code. Determines the limits on
    /// area and time range and the available formats.
    pub capacity_tier: String,
    /// How many jobs the code grants in total.
    pub total_jobs: i32,
    /// How many jobs have been consumed.
    pub used_jobs: i32,
    /// How many jobs are left.
    pub remaining_jobs: i32,
    /// When the code expires, if it does.
    pub expires_at: Option<Timestamp>,
    /// Whether the code is active (not expired and with uses left).
    pub is_valid: bool,
}

/// How many jobs of a code are left.
pub open spec fn remaining(row: CodeRow) -> int {
    if row.total_jobs > row.used_jobs {
        row.total_jobs - row.used_jobs
    } else {
        0
    }
}

/// Whether a code is active.
pub open spec fn is_active(row: CodeRow, now: Timestamp) -> bool {
    !row.expired(now) && remaining(row) > 0
}

impl CodeInfoResponse {
    /// Whether the answer tells of a code at the time `now`.
    pub open spec fn tells_of(self, code: Uuid, row: CodeRow, now: Timestamp) -> bool {
        &&& self.code == code
        &&& self.capacity_tier == row.granted_tier
        &&& self.total_jobs == row.total_jobs
        &&& self.used_jobs == row.used_jobs
        &&& self.remaining_jobs == remaining(row)
        &&& self.expires_at == row.expires_at
        &&& self.is_valid == is_active(row, now)
    }
}

/// `GET /codes/:code`: what there is to know of a prepaid code at the time `now`.
///
/// The code is not consumed and not tied to any user.
pub fn get_code_info(code: Uuid, row: Option<CodeRow>, now: Timestamp) -> (r: Result<
    CodeInfoResponse,
    AppError,
>)
    requires
        row is Some ==> i32::MIN <= (row->0).total_jobs - (row->0).used_jobs <= i32::MAX,
    ensures
        match (row, r) {
            (None, Err(error)) => error@ == AppErrorModel::CodeNotFound,
            (Some(row), Ok(info)) => info.tells_of(code, row, now),
            _ => false,
        },
{
    match row {
        None => Err(AppError::CodeNotFound),
        Some(row) => {
            let expired = match &row.expires_at {
                Some(exp) => exp.before(&now),
                None => false,
            };
            let left: i32 = row.total_jobs - row.used_jobs;
            let remaining_jobs: i32 = if left > 0 {
                left
            } else {
                0
            };
            Ok(
                CodeInfoResponse {
                    code,
                    capacity_tier: row.granted_tier,
                    total_jobs: row.total_jobs,
                    used_jobs: row.used_jobs,
                    remaining_jobs,
                    expires_at: row.expires_at,
                    is_valid: !expired && remaining_jobs > 0,
                },
            )
        },
    }
}

/// A code is shown as active exactly where a submission would not be turned
/// down for it: neither as invalid nor as exhausted.
pub proof fn active_codes_are_accepted(row: CodeRow, now: Timestamp)
    ensures
        is_active(row, now) <==> !(submit::tier_of_code(Some(row), now) == Err::<
            UserTier,
            AppErrorModel,
        >(AppErrorModel::InvalidPrepaidCode) || submit::tier_of_code(Some(row), now) == Err::<
            UserTier,
            AppErrorModel,
        >(AppErrorModel::CodeExhausted)),
{
}

/// What is left of a code is what it grants without what was used, and never less
/// than nothing; each use leaves one less. A code is active up to and including the
/// moment at which it expires, as long as something is left.
pub proof fn codes_run_down(row: CodeRow, now: Timestamp)
    ensures
        row.used_jobs <= row.total_jobs ==> remaining(row) + row.used_jobs == row.total_jobs,
        row.used_jobs >= row.total_jobs ==> remaining(row) == 0,
        is_active(row, now) <==> row.used_jobs < row.total_jobs && (row.expires_at matches Some(
            end,
        ) ==> now.secs < end.secs || (now.secs == end.secs && now.nanos <= end.nanos)),
{
}

// ---------------------------------------------------------------------------
// Profiles
// ---------------------------------------------------------------------------

/// The query of `GET /users/me`.
#[derive(Debug, Clone, Copy, PartialEq, Eq, Structural)]
pub struct MeQuery {
    pub user_id: Uuid,
}

/// The current tier of a user and the name to show.
#[derive(Debug)]
pub struct UserMeResponse {
    pub user_id: Uuid,
    pub display_name: Option<String>,
    pub tier: String,
}

/// `GET /users/me?user_id=<uuid>`: the profile of the user whose row was looked
/// up.
pub fn get_me(row: Option<UserMeResponse>) -> (r: Result<UserMeResponse, AppError>)
    ensures
        match (row, r) {
            (Some(row), Ok(me)) => me == row,
            (None, Err(error)) => error@ == AppErrorModel::JobNotFound,
            _ => false,
        },
{
    match row {
        Some(me) => Ok(me),
        None => Err(AppError::JobNotFound),
    }
}

// ---------------------------------------------------------------------------
// Laws
// ---------------------------------------------------------------------------

/// What is told of a code adds up: it is that code, with the tier that it grants; the
/// jobs used and those left make the jobs granted, unless more were used than granted;
/// and it counts as valid exactly where jobs are left and its end, if it has one, has
/// not passed.
pub proof fn code_infos_add_up(info: CodeInfoResponse, code: Uuid, row: CodeRow, now: Timestamp)
    requires
        info.tells_of(code, row, now),
    ensures
        info.code == code,
        info.capacity_tier@ == row.granted_tier@,
        info.total_jobs == row.total_jobs,
        info.used_jobs == row.used_jobs,
        info.expires_at == row.expires_at,
        info.remaining_jobs >= 0,
        info.used_jobs <= info.total_jobs ==> info.used_jobs + info.remaining_jobs
            == info.total_jobs,
        info.used_jobs > info.total_jobs ==> info.remaining_jobs == 0,
        info.is_valid <==> info.remaining_jobs > 0 && (info.expires_at is None || !(
        info.expires_at->0).precedes(now)),
{
}

/// A code can be made exactly where it grants one of the three tiers and at least one
/// job.
pub proof fn codes_grant_something(body: CreateCodeRequest)
    ensures
        code_error(body) is None <==> (body.granted_tier@ == "demo"@ || body.granted_tier@
            == "free"@ || body.granted_tier@ == "pro"@) && body.total_jobs >= 1,
        code_error(body) matches Some(error) ==> error.status() == 400,
{
    UserTier::named_is_unique(UserTier::Demo);
    UserTier::named_is_unique(UserTier::Free);
    UserTier::named_is_unique(UserTier::Pro);
    if UserTier::named(body.granted_tier@) is Some {
        let tier = choose|tier: UserTier| body.granted_tier@ == #[trigger] tier.name();
        assert(tier is Demo || tier is Free || tier is Pro);
    }
}

} // verus!
