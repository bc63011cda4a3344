//! Authorization: the role gate, the ownership gate, and the table that
//! says which gates guard each operation.

use vstd::prelude::*;
use crate::error::{AppError, Failure, TokenFault};
use crate::ident::{uuid_value, UserId};
use crate::role::UserRole;
use crate::token::Claims;

verus! {

/// A set of roles.
#[derive(Debug, Clone, Copy, PartialEq, Eq, Structural)]
pub struct RoleSet {
    pub admin: bool,
    pub winemaker: bool,
    pub worker: bool,
}

/// How an operation on an owned resource treats those who do not own it.
#[derive(Debug, Clone, Copy, PartialEq, Eq, Structural)]
pub enum OwnerRule {
    /// Ownership plays no part.
    Anyone,
    /// Only the owner and administrators pass.
    OwnerOrAdmin,
    /// Workers pass on what they own; every other role passes.
    WorkerOwnsOnly,
}

/// The gates that guard one operation.
#[derive(Debug, Clone, Copy)]
pub struct Rule {
    /// Roles that may call the operation at all.
    pub allowed: RoleSet,
    /// Gate on the resource's owner, applied once the resource is loaded.
    pub owner: OwnerRule,
    /// Message for a role that is not allowed.
    pub denial: &'static str,
}

/// The protected operations of the services.
#[derive(Debug, Clone, Copy, PartialEq, Eq, Structural)]
pub enum Operation {
    GetProfile,
    UpdateProfile,
    ChangePassword,
    ListUsers,
    CreateTank,
    ListTanks,
    ListAvailableTanks,
    GetTank,
    UpdateTank,
    DeleteTank,
    CreateBatch,
    ListBatches,
    ListActiveBatches,
    GetBatch,
    ListBatchesByTank,
    UpdateBatch,
    DeleteBatch,
    GetBatchStats,
    AddReading,
    ListReadings,
    DeleteReading,
    CreateHarvest,
    GetHarvest,
    ListHarvestsByVineyard,
    ListHarvestsByParcel,
    ListAllHarvests,
    UpdateHarvest,
    UpdateHarvestStatus,
    DeleteHarvest,
    AddQualityMeasurement,
    ListQualityMeasurements,
    DeleteQualityMeasurement,
    GetVineyardHarvestStats,
    CreateVineyard,
    GetVineyard,
    ListVineyards,
    UpdateVineyard,
    DeleteVineyard,
    CreateParcel,
    GetParcel,
    ListParcels,
    UpdateParcel,
    DeleteParcel,
}

/// What the caller is to do after the role gate.
#[derive(Debug, Clone)]
pub enum Admission {
    /// Carry the operation out.
    Granted,
    /// Load the resource, then come back with its owner.
    NeedsOwner,
    /// Answer with this failure.
    Denied(AppError),
}

/// Which vineyards a listing shows.
#[derive(Debug, Clone, Copy, PartialEq, Eq, Structural)]
pub enum Scope {
    All,
    OwnedBy(UserId),
}

/// The set of all three roles.
pub open spec fn every_role() -> RoleSet {
    RoleSet { admin: true, winemaker: true, worker: true }
}

/// The set that holds administrators only.
pub open spec fn admin_only() -> RoleSet {
    RoleSet { admin: true, winemaker: false, worker: false }
}

/// The set of administrators and winemakers.
pub open spec fn above_worker() -> RoleSet {
    RoleSet { admin: true, winemaker: true, worker: false }
}

/// Whether a role is in a set.
pub open spec fn permits(set: RoleSet, role: UserRole) -> bool {
    match role {
        UserRole::Admin => set.admin,
        UserRole::Winemaker => set.winemaker,
        UserRole::Worker => set.worker,
    }
}

/// The roles that may call an operation.
pub open spec fn allowed_roles(op: Operation) -> RoleSet {
    match op {
        Operation::ListUsers | Operation::DeleteTank | Operation::ListAllHarvests => admin_only(),
        Operation::CreateTank
        | Operation::UpdateTank
        | Operation::CreateBatch
        | Operation::UpdateBatch
        | Operation::DeleteBatch
        | Operation::DeleteReading
        | Operation::CreateHarvest
        | Operation::UpdateHarvest
        | Operation::UpdateHarvestStatus
        | Operation::DeleteHarvest
        | Operation::DeleteQualityMeasurement
        | Operation::CreateVineyard => above_worker(),
        _ => every_role(),
    }
}

/// How an operation treats those who do not own the resource it touches.
pub open spec fn owner_rule(op: Operation) -> OwnerRule {
    match op {
        Operation::UpdateBatch
        | Operation::DeleteBatch
        | Operation::UpdateHarvest
        | Operation::UpdateHarvestStatus
        | Operation::DeleteHarvest
        | Operation::UpdateVineyard
        | Operation::DeleteVineyard
        | Operation::CreateParcel
        | Operation::UpdateParcel
        | Operation::DeleteParcel => OwnerRule::OwnerOrAdmin,
        Operation::AddReading
        | Operation::GetHarvest
        | Operation::AddQualityMeasurement
        | Operation::GetVineyard
        | Operation::GetParcel
        | Operation::ListParcels => OwnerRule::WorkerOwnsOnly,
        _ => OwnerRule::Anyone,
    }
}

/// The message for a role that may not call an operation.
pub open spec fn denial_text(op: Operation) -> Seq<char> {
    match op {
        Operation::ListUsers => "Insufficient permissions"@,
        Operation::CreateTank => "Workers cannot create tanks"@,
        Operation::UpdateTank => "Workers cannot update tanks"@,
        Operation::DeleteTank => "Only admins can delete tanks"@,
        Operation::CreateBatch => "Workers cannot create fermentation batches"@,
        Operation::UpdateBatch => "Workers cannot update batches"@,
        Operation::DeleteBatch => "Workers cannot delete batches"@,
        Operation::DeleteReading => "Workers cannot delete readings"@,
        Operation::CreateHarvest => "Workers cannot create harvests"@,
        Operation::ListAllHarvests => "Admin only"@,
        Operation::UpdateHarvest => "Workers cannot update harvests"@,
        Operation::UpdateHarvestStatus => "Workers cannot change harvest status"@,
        Operation::DeleteHarvest => "Workers cannot delete harvests"@,
        Operation::DeleteQualityMeasurement => "Workers cannot delete quality measurements"@,
        Operation::CreateVineyard => "Only winemakers and admins can create vineyards"@,
        _ => "Insufficient permissions"@,
    }
}

/// Whether the ownership gate lets a user through.
pub open spec fn owner_passes(rule: OwnerRule, role: UserRole, user: UserId, owner: UserId)
    -> bool {
    match rule {
        OwnerRule::Anyone => true,
        OwnerRule::OwnerOrAdmin => role == UserRole::Admin || user == owner,
        OwnerRule::WorkerOwnsOnly => role != UserRole::Worker || user == owner,
    }
}

/// The refusal of the role gate.
pub open spec fn role_denied(denial: Seq<char>) -> Failure {
    Failure::Forbidden(denial)
}

/// The refusal of the ownership gate.
pub open spec fn owner_denied() -> Failure {
    Failure::Forbidden("Access denied"@)
}

/// What the role gate answers.
pub open spec fn role_gate_result(role: UserRole, allowed: RoleSet, denial: Seq<char>) -> Option<
    Failure,
> {
    if permits(allowed, role) {
        None
    } else {
        Some(role_denied(denial))
    }
}

/// What the ownership gate answers.
pub open spec fn owner_gate_result(rule: OwnerRule, role: UserRole, user: UserId, owner: UserId)
    -> Option<Failure> {
    if owner_passes(rule, role, user, owner) {
        None
    } else {
        Some(owner_denied())
    }
}

/// What the gates answer for a context whose subject reads as `user`, on a
/// resource owned by `owner` if there is one: the role gate first, then a
/// subject that is no identifier, then the ownership gate.
pub open spec fn authorization_result(
    role: UserRole,
    user: Option<u128>,
    allowed: RoleSet,
    denial: Seq<char>,
    rule: OwnerRule,
    owner: Option<UserId>,
) -> Option<Failure> {
    if !permits(allowed, role) {
        Some(role_denied(denial))
    } else if owner is None || rule == OwnerRule::Anyone {
        None
    } else if user is None {
        Some(Failure::Token(TokenFault::MalformedSubject))
    } else {
        owner_gate_result(rule, role, UserId(user->0), owner->0)
    }
}

/// Whether an executable result is the answer `answer`.
pub open spec fn answers(r: Result<(), AppError>, answer: Option<Failure>) -> bool {
    match r {
        Ok(_) => answer is None,
        Err(e) => answer == Some(e@),
    }
}

impl RoleSet {
    /// The set of all three roles.
    pub fn all() -> (set: RoleSet)
        ensures
            set == every_role(),
    {
        RoleSet { admin: true, winemaker: true, worker: true }
    }

    /// The set that holds administrators only.
    pub fn admins() -> (set: RoleSet)
        ensures
            set == admin_only(),
    {
        RoleSet { admin: true, winemaker: false, worker: false }
    }

    /// The set of administrators and winemakers.
    pub fn admins_and_winemakers() -> (set: RoleSet)
        ensures
            set == above_worker(),
    {
        RoleSet { admin: true, winemaker: true, worker: false }
    }

    /// Whether the role is in the set.
    pub fn contains(&self, role: UserRole) -> (found: bool)
        ensures
            found == permits(*self, role),
    {
        match role {
            UserRole::Admin => self.admin,
            UserRole::Winemaker => self.winemaker,
            UserRole::Worker => self.worker,
        }
    }
}

/// The role gate: a role outside the allowed set is refused with the given
/// message.
pub fn role_gate(role: UserRole, allowed: RoleSet, denial: &str) -> (r: Result<(), AppError>)
    ensures
        answers(r, role_gate_result(role, allowed, denial@)),
{
    if allowed.contains(role) {
        Ok(())
    } else {
        Err(AppError::Forbidden(denial.to_owned()))
    }
}

/// The ownership gate: under `OwnerOrAdmin` only the owner and
/// administrators pass, under `WorkerOwnsOnly` workers pass on what they own
/// and every other role passes.
pub fn ownership_gate(rule: OwnerRule, role: UserRole, user: UserId, owner: UserId) -> (r: Result<
    (),
    AppError,
>)
    ensures
        answers(r, owner_gate_result(rule, role, user, owner)),
{
    let passes = match rule {
        OwnerRule::Anyone => true,
        OwnerRule::OwnerOrAdmin => role == UserRole::Admin || user.0 == owner.0,
        OwnerRule::WorkerOwnsOnly => role != UserRole::Worker || user.0 == owner.0,
    };
    if passes {
        Ok(())
    } else {
        Err(AppError::Forbidden("Access denied".to_owned()))
    }
}

/// Checks a verified context against a set of required roles and, where the
/// resource records an owner, against that owner: only the owner and
/// administrators pass.
pub fn authorize(context: &Claims, required_roles: RoleSet, owner: Option<UserId>) -> (r: Result<
    (),
    AppError,
>)
    ensures
        answers(
            r,
            authorization_result(
                context.role,
                uuid_value(context.sub@),
                required_roles,
                "Insufficient permissions"@,
                OwnerRule::OwnerOrAdmin,
                owner,
            ),
        ),
{
    role_gate(context.role, required_roles, "Insufficient permissions")?;
    match owner {
        None => Ok(()),
        Some(owner) => {
            let user = context.user_id()?;
            ownership_gate(OwnerRule::OwnerOrAdmin, context.role, user, owner)
        },
    }
}

impl Operation {
    /// The gates that guard this operation.
    pub fn rule(&self) -> (rule: Rule)
        ensures
            rule.allowed == allowed_roles(*self),
            rule.owner == owner_rule(*self),
            rule.denial@ == denial_text(*self),
    {
        let allowed = match self {
            Operation::ListUsers | Operation::DeleteTank | Operation::ListAllHarvests => {
                RoleSet::admins()
            },
            Operation::CreateTank
            | Operation::UpdateTank
            | Operation::CreateBatch
            | Operation::UpdateBatch
            | Operation::DeleteBatch
            | Operation::DeleteReading
            | Operation::CreateHarvest
            | Operation::UpdateHarvest
            | Operation::UpdateHarvestStatus
            | Operation::DeleteHarvest
            | Operation::DeleteQualityMeasurement
            | Operation::CreateVineyard => RoleSet::admins_and_winemakers(),
            _ => RoleSet::all(),
        };
        let owner = match self {
            Operation::UpdateBatch
            | Operation::DeleteBatch
            | Operation::UpdateHarvest
            | Operation::UpdateHarvestStatus
            | Operation::DeleteHarvest
            | Operation::UpdateVineyard
            | Operation::DeleteVineyard
            | Operation::CreateParcel
            | Operation::UpdateParcel
            | Operation::DeleteParcel => OwnerRule::OwnerOrAdmin,
            Operation::AddReading
            | Operation::GetHarvest
            | Operation::AddQualityMeasurement
            | Operation::GetVineyard
            | Operation::GetParcel
            | Operation::ListParcels => OwnerRule::WorkerOwnsOnly,
            _ => OwnerRule::Anyone,
        };
        let denial = match self {
            Operation::ListUsers => "Insufficient permissions",
            Operation::CreateTank => "Workers cannot create tanks",
            Operation::UpdateTank => "Workers cannot update tanks",
            Operation::DeleteTank => "Only admins can delete tanks",
            Operation::CreateBatch => "Workers cannot create fermentation batches",
            Operation::UpdateBatch => "Workers cannot update batches",
            Operation::DeleteBatch => "Workers cannot delete batches",
            Operation::DeleteReading => "Workers cannot delete readings",
            Operation::CreateHarvest => "Workers cannot create harvests",
            Operation::ListAllHarvests => "Admin only",
            Operation::UpdateHarvest => "Workers cannot update harvests",
            Operation::UpdateHarvestStatus => "Workers cannot change harvest status",
            Operation::DeleteHarvest => "Workers cannot delete harvests",
            Operation::DeleteQualityMeasurement => "Workers cannot delete quality measurements",
            Operation::CreateVineyard => "Only winemakers and admins can create vineyards",
            _ => "Insufficient permissions",
        };
        Rule { allowed, owner, denial }
    }

    /// The role gate of this operation, taken before anything is loaded.
    ///
    /// A role that is not allowed is denied with the operation's message;
    /// otherwise the caller is told whether the resource's owner is needed.
    pub fn begin(&self, context: &Claims) -> (step: Admission)
        ensures
            match step {
                Admission::Granted => permits(allowed_roles(*self), context.role) && owner_rule(
                    *self,
                ) == OwnerRule::Anyone,
                Admission::NeedsOwner => permits(allowed_roles(*self), context.role) && owner_rule(
                    *self,
                ) != OwnerRule::Anyone,
                Admission::Denied(e) => !permits(allowed_roles(*self), context.role) && e@
                    == role_denied(denial_text(*self)),
            },
    {
        let rule = self.rule();
        match role_gate(context.role, rule.allowed, rule.denial) {
            Err(e) => Admission::Denied(e),
            Ok(()) => match rule.owner {
                OwnerRule::Anyone => Admission::Granted,
                _ => Admission::NeedsOwner,
            },
        }
    }

    /// The ownership gate of this operation, taken once loading the resource
    /// has been tried.
    ///
    /// A failure to load is answered as it is, so that a resource that does
    /// not exist is reported as such to whoever asks. Then the subject must
    /// read as an identifier, and the ownership gate decides.
    pub fn resume(&self, context: &Claims, loaded: Result<UserId, AppError>) -> (r: Result<
        (),
        AppError,
    >)
        ensures
            match loaded {
                Err(e) => r is Err && r->Err_0@ == e@,
                Ok(owner) => answers(
                    r,
                    authorization_result(
                        context.role,
                        uuid_value(context.sub@),
                        every_role(),
                        denial_text(*self),
                        owner_rule(*self),
                        Some(owner),
                    ),
                ),
            },
    {
        let owner = loaded?;
        let rule = self.rule();
        match rule.owner {
            OwnerRule::Anyone => Ok(()),
            _ => {
                let user = context.user_id()?;
                ownership_gate(rule.owner, context.role, user, owner)
            },
        }
    }
}

/// Which vineyards a listing shows to a context: all of them to an
/// administrator, to anyone else those they own.
pub fn listing_scope(context: &Claims) -> (r: Result<Scope, AppError>)
    ensures
        match r {
            Ok(scope) => if context.role == UserRole::Admin {
                scope == Scope::All
            } else {
                uuid_value(context.sub@) matches Some(v) && scope == Scope::OwnedBy(UserId(v))
            },
            Err(e) => context.role != UserRole::Admin && uuid_value(context.sub@) is None && e@
                == Failure::Token(TokenFault::MalformedSubject),
        },
{
    if context.role == UserRole::Admin {
        Ok(Scope::All)
    } else {
        let user = context.user_id()?;
        Ok(Scope::OwnedBy(user))
    }
}

/// A role outside the allowed set is refused by the role gate whoever owns
/// the resource, and whether or not the subject reads as an identifier.
pub proof fn lemma_role_gate_ignores_ownership(
    role: UserRole,
    user: Option<u128>,
    allowed: RoleSet,
    denial: Seq<char>,
    rule: OwnerRule,
    owner: Option<UserId>,
)
    requires
        !permits(allowed, role),
    ensures
        authorization_result(role, user, allowed, denial, rule, owner) == Some(
            Failure::Forbidden(denial),
        ),
{
}

/// A worker is refused where administrators and winemakers are allowed,
/// whoever owns the resource.
pub proof fn lemma_worker_refused_above_worker(
    user: Option<u128>,
    denial: Seq<char>,
    rule: OwnerRule,
    owner: Option<UserId>,
)
    ensures
        authorization_result(UserRole::Worker, user, above_worker(), denial, rule, owner) == Some(
            Failure::Forbidden(denial),
        ),
{
}

/// An administrator passes the ownership gate whoever owns the resource.
pub proof fn lemma_admin_passes_ownership(rule: OwnerRule, user: UserId, owner: UserId)
    ensures
        owner_gate_result(rule, UserRole::Admin, user, owner) is None,
{
}

/// The owner passes the ownership gate in every role.
pub proof fn lemma_owner_passes_ownership(rule: OwnerRule, role: UserRole, user: UserId)
    ensures
        owner_gate_result(rule, role, user, user) is None,
{
}

/// Under the owner-or-administrator rule, whoever is neither is refused.
pub proof fn lemma_stranger_refused(role: UserRole, user: UserId, owner: UserId)
    requires
        role != UserRole::Admin,
        user != owner,
    ensures
        owner_gate_result(OwnerRule::OwnerOrAdmin, role, user, owner) == Some(owner_denied()),
{
}

} // verus!
