//! Rules on the resources that the services guard: the states of harvests,
//! tanks and fermentation batches, and what those states allow.

use vstd::prelude::*;
use crate::error::{AppError, Failure};
use crate::text::same_text;

verus! {

/// State of a harvest.
#[derive(Debug, Clone, Copy, PartialEq, Eq, Structural)]
pub enum HarvestStatus {
    Planned,
    InProgress,
    Completed,
    Cancelled,
}

/// State of a fermentation tank.
#[derive(Debug, Clone, Copy, PartialEq, Eq, Structural)]
pub enum TankStatus {
    Available,
    InUse,
    Cleaning,
    Maintenance,
}

/// Material of a fermentation tank.
#[derive(Debug, Clone, Copy, PartialEq, Eq, Structural)]
pub enum TankMaterial {
    StainlessSteel,
    Oak,
    Concrete,
    Fiberglass,
}

/// State of a fermentation batch.
#[derive(Debug, Clone, Copy, PartialEq, Eq, Structural)]
pub enum FermentationStatus {
    Active,
    Completed,
    Paused,
    Cancelled,
}

/// Query of a listing of readings.
#[derive(Debug, Clone, Copy)]
pub struct ReadingsQuery {
    /// Most readings to return, if limited.
    pub limit: Option<i64>,
}

/// Most readings that a listing returns where the query sets no limit.
pub const DEFAULT_READINGS_LIMIT: i64 = 100;

/// Label of a tank state in messages.
pub open spec fn tank_status_label(status: TankStatus) -> Seq<char> {
    match status {
        TankStatus::Available => "Available"@,
        TankStatus::InUse => "InUse"@,
        TankStatus::Cleaning => "Cleaning"@,
        TankStatus::Maintenance => "Maintenance"@,
    }
}

/// The message that refuses a batch in a tank that is not available.
pub open spec fn tank_busy_text(name: Seq<char>, status: TankStatus) -> Seq<char> {
    "Tank '"@ + name + "' is not available (status: "@ + tank_status_label(status) + ")"@
}

impl TankStatus {
    /// Label of this state in messages.
    pub fn label(&self) -> (text: &'static str)
        ensures
            text@ == tank_status_label(*self),
    {
        match self {
            TankStatus::Available => "Available",
            TankStatus::InUse => "InUse",
            TankStatus::Cleaning => "Cleaning",
            TankStatus::Maintenance => "Maintenance",
        }
    }
}

impl ReadingsQuery {
    /// The number of readings to return at most: the limit of the query, or
    /// 100 where it sets none.
    pub fn effective_limit(&self) -> (limit: i64)
        ensures
            limit == (match self.limit {
                Some(n) => n,
                None => 100,
            }),
    {
        match self.limit {
            Some(n) => n,
            None => DEFAULT_READINGS_LIMIT,
        }
    }
}

/// Wire name of a harvest state.
pub open spec fn harvest_status_name(status: HarvestStatus) -> Seq<char> {
    match status {
        HarvestStatus::Planned => "planned"@,
        HarvestStatus::InProgress => "in_progress"@,
        HarvestStatus::Completed => "completed"@,
        HarvestStatus::Cancelled => "cancelled"@,
    }
}

/// The harvest state that a wire name denotes, if any.
pub open spec fn harvest_status_of(name: Seq<char>) -> Option<HarvestStatus> {
    if name == "planned"@ {
        Some(HarvestStatus::Planned)
    } else if name == "in_progress"@ {
        Some(HarvestStatus::InProgress)
    } else if name == "completed"@ {
        Some(HarvestStatus::Completed)
    } else if name == "cancelled"@ {
        Some(HarvestStatus::Cancelled)
    } else {
        None
    }
}

/// What a requested change of a harvest's state comes to: the field must be
/// there, and it must name a state.
pub open spec fn requested_status(field: Option<Seq<char>>) -> Result<HarvestStatus, Failure> {
    match field {
        None => Err(Failure::Validation("status field is required"@)),
        Some(name) => match harvest_status_of(name) {
            Some(status) => Ok(status),
            None => Err(
                Failure::Validation(
                    "Invalid status. Use: planned, in_progress, completed, cancelled"@,
                ),
            ),
        },
    }
}

/// Every harvest state is recovered from its own wire name.
pub proof fn lemma_harvest_status_round_trip(status: HarvestStatus)
    ensures
        harvest_status_of(harvest_status_name(status)) == Some(status),
{
    reveal_strlit("planned");
    reveal_strlit("in_progress");
    reveal_strlit("completed");
    reveal_strlit("cancelled");
    assert("planned"@.len() == 7);
    assert("in_progress"@.len() == 11);
    assert("completed"@[1] == 'o');
    assert("cancelled"@[1] == 'a');
}

impl HarvestStatus {
    /// The wire name of this state.
    pub fn as_str(&self) -> (name: &'static str)
        ensures
            name@ == harvest_status_name(*self),
    {
        match self {
            HarvestStatus::Planned => "planned",
            HarvestStatus::InProgress => "in_progress",
            HarvestStatus::Completed => "completed",
            HarvestStatus::Cancelled => "cancelled",
        }
    }

    /// The wire name of this state, as owned text.
    pub fn to_text(&self) -> (name: String)
        ensures
            name@ == harvest_status_name(*self),
    {
        self.as_str().to_owned()
    }

    /// Reads a state from its wire name; `None` for any other text.
    pub fn parse(name: &str) -> (status: Option<HarvestStatus>)
        ensures
            status == harvest_status_of(name@),
    {
        if same_text(name, "planned") {
            Some(HarvestStatus::Planned)
        } else if same_text(name, "in_progress") {
            Some(HarvestStatus::InProgress)
        } else if same_text(name, "completed") {
            Some(HarvestStatus::Completed)
        } else if same_text(name, "cancelled") {
            Some(HarvestStatus::Cancelled)
        } else {
            None
        }
    }

    /// Reads the state that a request asks a harvest to take, from the
    /// `status` field of its body, if the body has one that is a string.
    ///
    /// A missing field and an unknown name are validation failures.
    pub fn from_request(field: Option<&str>) -> (r: Result<HarvestStatus, AppError>)
        ensures
            match r {
                Ok(status) => requested_status(field_view(field)) == Ok::<HarvestStatus, Failure>(
                    status,
                ),
                Err(e) => requested_status(field_view(field)) == Err::<HarvestStatus, Failure>(e@),
            },
    {
        match field {
            None => Err(AppError::ValidationError("status field is required".to_owned())),
            Some(name) => match HarvestStatus::parse(name) {
                Some(status) => Ok(status),
                None => Err(
                    AppError::ValidationError(
                        "Invalid status. Use: planned, in_progress, completed, cancelled".to_owned(),
                    ),
                ),
            },
        }
    }
}

/// View of an optional field.
pub open spec fn field_view(field: Option<&str>) -> Option<Seq<char>> {
    match field {
        Some(v) => Some(v@),
        None => None,
    }
}

/// Readings are taken only for a batch that is active: any other state is a
/// conflict.
pub fn readings_open(status: FermentationStatus) -> (r: Result<(), AppError>)
    ensures
        match r {
            Ok(_) => status == FermentationStatus::Active,
            Err(e) => status != FermentationStatus::Active && e@ == Failure::Conflict(
                "Can only add readings to active batches"@,
            ),
        },
{
    match status {
        FermentationStatus::Active => Ok(()),
        _ => Err(AppError::Conflict("Can only add readings to active batches".to_owned())),
    }
}

/// Readings of sensors are taken only for a batch that is active: any other
/// state is a conflict.
pub fn iot_readings_open(status: FermentationStatus) -> (r: Result<(), AppError>)
    ensures
        match r {
            Ok(_) => status == FermentationStatus::Active,
            Err(e) => status != FermentationStatus::Active && e@ == Failure::Conflict(
                "Can only add IoT readings to active batches"@,
            ),
        },
{
    match status {
        FermentationStatus::Active => Ok(()),
        _ => Err(AppError::Conflict("Can only add IoT readings to active batches".to_owned())),
    }
}

/// A batch is deleted only once it is no longer active.
pub fn batch_deletable(status: FermentationStatus) -> (r: Result<(), AppError>)
    ensures
        match r {
            Ok(_) => status != FermentationStatus::Active,
            Err(e) => status == FermentationStatus::Active && e@ == Failure::Conflict(
                "Cannot delete an active fermentation batch. Cancel it first."@,
            ),
        },
{
    match status {
        FermentationStatus::Active => Err(
            AppError::Conflict(
                "Cannot delete an active fermentation batch. Cancel it first.".to_owned(),
            ),
        ),
        _ => Ok(()),
    }
}

/// A tank is deleted only while no active batch is in it.
pub fn tank_deletable(has_active_batch: bool) -> (r: Result<(), AppError>)
    ensures
        match r {
            Ok(_) => !has_active_batch,
            Err(e) => has_active_batch && e@ == Failure::Conflict(
                "Cannot delete tank with active fermentation batch"@,
            ),
        },
{
    if has_active_batch {
        Err(AppError::Conflict("Cannot delete tank with active fermentation batch".to_owned()))
    } else {
        Ok(())
    }
}

/// Whether an update of a batch sets its tank free: it does where an active
/// batch is asked to be completed or cancelled.
pub fn releases_tank(requested: Option<FermentationStatus>, current: FermentationStatus) -> (free:
    bool)
    ensures
        free == (current == FermentationStatus::Active && (requested == Some(
            FermentationStatus::Completed,
        ) || requested == Some(FermentationStatus::Cancelled))),
{
    match requested {
        Some(FermentationStatus::Completed) | Some(FermentationStatus::Cancelled) => match current {
            FermentationStatus::Active => true,
            _ => false,
        },
        _ => false,
    }
}

/// A batch is started only in a tank that is available; the conflict names
/// the tank and its state.
pub fn tank_accepts_batch(status: TankStatus, name: &str) -> (r: Result<(), AppError>)
    ensures
        match r {
            Ok(_) => status == TankStatus::Available,
            Err(e) => status != TankStatus::Available && e@ == Failure::Conflict(
                tank_busy_text(name@, status),
            ),
        },
{
    match status {
        TankStatus::Available => Ok(()),
        _ => {
            let mut text = "Tank '".to_owned();
            text.append(name);
            text.append("' is not available (status: ");
            text.append(status.label());
            text.append(")");
            Err(AppError::Conflict(text))
        },
    }
}

/// A parcel is reached only through the vineyard it belongs to: through any
/// other it is not found.
pub fn parcel_in_vineyard(parcel_vineyard: u128, vineyard: u128) -> (r: Result<(), AppError>)
    ensures
        match r {
            Ok(_) => parcel_vineyard == vineyard,
            Err(e) => parcel_vineyard != vineyard && e@ == Failure::NotFound(
                "Parcel not found in this vineyard"@,
            ),
        },
{
    if parcel_vineyard == vineyard {
        Ok(())
    } else {
        Err(AppError::NotFound("Parcel not found in this vineyard".to_owned()))
    }
}

/// Finds the first active batch among the batches of a tank, by position.
pub fn find_active(statuses: &Vec<FermentationStatus>) -> (r: Option<usize>)
    ensures
        match r {
            Some(i) => i < statuses.len() && statuses[i as int] == FermentationStatus::Active
                && forall|j: int| 0 <= j < i ==> statuses[j] != FermentationStatus::Active,
            None => forall|j: int|
                0 <= j < statuses.len() ==> statuses[j] != FermentationStatus::Active,
        },
{
    let mut i: usize = 0;
    while i < statuses.len()
        invariant
            i <= statuses.len(),
            forall|j: int| 0 <= j < i ==> statuses[j] != FermentationStatus::Active,
        decreases statuses.len() - i,
    {
        if statuses[i] == FermentationStatus::Active {
            return Some(i);
        }
        i += 1;
    }
    None
}

} // verus!
