use vstd::prelude::*;

verus! {

/// The category a time-away request is charged against.
#[derive(Debug, Clone, Copy, PartialEq, Eq, Structural)]
pub enum ReqCharge {
    Vacation,
    BankedTime,
    BankedStatTime,
    UnPaidTime,
    Other,
}

/// The lifecycle state of a time-away request.
#[derive(Debug, Clone, Copy, PartialEq, Eq, Structural)]
pub enum ReqStatus {
    Pending,
    Approved,
    Processed,
    Completed,
}

/// The canonical stored name of a charge category: the variant's name.
pub open spec fn charge_name(c: ReqCharge) -> Seq<char> {
    match c {
        ReqCharge::Vacation => "Vacation"@,
        ReqCharge::BankedTime => "BankedTime"@,
        ReqCharge::BankedStatTime => "BankedStatTime"@,
        ReqCharge::UnPaidTime => "UnPaidTime"@,
        ReqCharge::Other => "Other"@,
    }
}

/// The canonical stored name of a status: the variant's name.
pub open spec fn status_name(s: ReqStatus) -> Seq<char> {
    match s {
        ReqStatus::Pending => "Pending"@,
        ReqStatus::Approved => "Approved"@,
        ReqStatus::Processed => "Processed"@,
        ReqStatus::Completed => "Completed"@,
    }
}

impl ReqCharge {
    /// The name under which this category is stored.
    pub fn as_str(&self) -> (r: &'static str)
        ensures
            r@ == charge_name(*self),
    {
        match self {
            ReqCharge::Vacation => "Vacation",
            ReqCharge::BankedTime => "BankedTime",
            ReqCharge::BankedStatTime => "BankedStatTime",
            ReqCharge::UnPaidTime => "UnPaidTime",
            ReqCharge::Other => "Other",
        }
    }
}

impl ReqStatus {
    /// The name under which this status is stored.
    pub fn as_str(&self) -> (r: &'static str)
        ensures
            r@ == status_name(*self),
    {
        match self {
            ReqStatus::Pending => "Pending",
            ReqStatus::Approved => "Approved",
            ReqStatus::Processed => "Processed",
            ReqStatus::Completed => "Completed",
        }
    }
}

impl Default for ReqStatus {
    /// A new request starts out `Pending`.
    fn default() -> (r: Self)
        ensures
            r == ReqStatus::Pending,
    {
        ReqStatus::Pending
    }
}

/// The store's identifier of a record: twelve opaque bytes.
#[derive(Debug, Clone, Copy)]
pub struct RecordId {
    pub bytes: [u8; 12],
}

/// A time-away request. `id` is absent until the store assigns one.
#[derive(Debug, Clone)]
pub struct Request {
    pub id: Option<RecordId>,
    pub name: String,
    pub email: String,
    pub start_date: String,
    pub end_date: String,
    pub start_time: String,
    pub end_time: String,
    pub charge_against: ReqCharge,
    pub manager: String,
    pub status: ReqStatus,
}

/// A sparse patch of a request: an absent field means "leave unchanged".
#[derive(Debug, Clone)]
pub struct UpdateRequest {
    pub name: Option<String>,
    pub email: Option<String>,
    pub start_date: Option<String>,
    pub end_date: Option<String>,
    pub start_time: Option<String>,
    pub end_time: Option<String>,
    pub charge_against: Option<ReqCharge>,
    pub manager: Option<String>,
    pub status: Option<ReqStatus>,
}

} // verus!
