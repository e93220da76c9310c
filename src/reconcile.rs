use vstd::prelude::*;

use crate::calendar::{
    local_now, opt_triple, parse_stored_date, parsed_date, stored_date_format, strictly_after,
    CalendarDate,
};
use crate::models::{ReqStatus, Request};

verus! {

/// What reconciliation does with one record.
#[derive(Debug, Clone, Copy, PartialEq, Eq, Structural)]
pub enum Action {
    /// The record is moved from `Processed` to `Completed`.
    Complete,
    /// The record stays as it is.
    Keep,
    /// The record is `Processed` but its end date cannot be read; it is reported
    /// and left as it is.
    SkipUnparsable,
}

/// The action for a record with status `status` and end date `end` (`None` when
/// unreadable), reconciled on `today`.
pub open spec fn action_for(status: ReqStatus, end: Option<(int, int, int)>, today: (int, int, int)) -> Action {
    if status != ReqStatus::Processed {
        Action::Keep
    } else {
        match end {
            None => Action::SkipUnparsable,
            Some(e) => if strictly_after(today, e) {
                Action::Complete
            } else {
                Action::Keep
            },
        }
    }
}

/// The action for a record reconciled on `today`.
pub open spec fn record_action(r: Request, today: (int, int, int)) -> Action {
    action_for(r.status, parsed_date(r.end_date@, stored_date_format()), today)
}

/// The actions for a batch of records, one per record, each decided on its own.
pub open spec fn planned(rs: Seq<Request>, today: (int, int, int)) -> Seq<Action> {
    rs.map_values(|r: Request| record_action(r, today))
}

/// The record after reconciliation on `today`: its status becomes `Completed`
/// when its action is `Complete`; nothing else changes.
pub open spec fn reconciled(r: Request, today: (int, int, int)) -> Request {
    if record_action(r, today) == Action::Complete {
        Request { status: ReqStatus::Completed, ..r }
    } else {
        r
    }
}

/// Decides the action for a record from its status, its end date as read (`None`
/// when unreadable) and today's date.
pub fn decide(status: ReqStatus, end: Option<CalendarDate>, today: &CalendarDate) -> (r: Action)
    ensures
        r == action_for(status, opt_triple(end), today.triple()),
{
    match status {
        ReqStatus::Processed => match end {
            None => Action::SkipUnparsable,
            Some(e) => if today.is_after(&e) {
                Action::Complete
            } else {
                Action::Keep
            },
        },
        _ => Action::Keep,
    }
}

/// Decides the action for each record of a batch on `today`. A record whose end
/// date cannot be read does not stop the others from being decided.
pub fn plan_reconciliation(requests: &Vec<Request>, today: &CalendarDate) -> (r: Vec<Action>)
    ensures
        r@ == planned(requests@, today.triple()),
{
    let mut out: Vec<Action> = Vec::new();
    let mut i: usize = 0;
    while i < requests.len()
        invariant
            i <= requests@.len(),
            out@ == planned(requests@.subrange(0, i as int), today.triple()),
        decreases requests@.len() - i,
    {
        let rq = &requests[i];
        let end = parse_stored_date(rq.end_date.as_str());
        let a = decide(rq.status, end, today);
        out.push(a);
        i = i + 1;
        assert(planned(requests@.subrange(0, i as int), today.triple()) =~= planned(
            requests@.subrange(0, i - 1),
            today.triple(),
        ).push(a));
    }
    assert(requests@.subrange(0, i as int) =~= requests@);
    out
}

/// Decides the actions for a batch on the local calendar date of the moment of
/// the call.
pub fn plan_reconciliation_today(requests: &Vec<Request>) -> (r: Vec<Action>)
    ensures
        exists|today: CalendarDate| r@ == planned(requests@, #[trigger] today.triple()),
{
    let today = local_now().date;
    plan_reconciliation(requests, &today)
}

impl Request {
    /// Reconciles this record on `today`: a `Processed` record whose end date has
    /// passed becomes `Completed`. Returns the action taken.
    pub fn reconcile(&mut self, today: &CalendarDate) -> (r: Action)
        ensures
            r == record_action(*old(self), today.triple()),
            *final(self) == reconciled(*old(self), today.triple()),
    {
        let end = parse_stored_date(self.end_date.as_str());
        let a = decide(self.status, end, today);
        match a {
            Action::Complete => {
                self.status = ReqStatus::Completed;
            },
            _ => {},
        }
        a
    }
}

/// A `Processed` record whose end date reads as `end` becomes `Completed` when
/// reconciled on a date strictly after `end`, and stays `Processed` on `end` or
/// any earlier date.
pub proof fn law_processed_completes_after_end_date(r: Request, end: (int, int, int), today: (int, int, int))
    requires
        r.status == ReqStatus::Processed,
        parsed_date(r.end_date@, stored_date_format()) == Some(end),
    ensures
        strictly_after(today, end) ==> reconciled(r, today).status == ReqStatus::Completed,
        !strictly_after(today, end) ==> reconciled(r, today).status == ReqStatus::Processed,
{
}

/// Reconciliation never touches a record that is not `Processed`, and never
/// changes anything but the status.
pub proof fn law_only_processed_advance(r: Request, today: (int, int, int))
    ensures
        r.status != ReqStatus::Processed ==> reconciled(r, today) == r,
        reconciled(r, today).status == r.status || reconciled(r, today).status
            == ReqStatus::Completed,
        reconciled(r, today) == (Request { status: reconciled(r, today).status, ..r }),
{
}

/// In a batch, a record with an unreadable end date changes nothing for the
/// others: every other record gets the action it would get on its own.
pub proof fn law_unreadable_record_does_not_stop_batch(rs: Seq<Request>, today: (int, int, int), k: int)
    requires
        0 <= k < rs.len(),
        parsed_date(rs[k].end_date@, stored_date_format()) is None,
    ensures
        planned(rs, today).len() == rs.len(),
        rs[k].status == ReqStatus::Processed ==> planned(rs, today)[k] == Action::SkipUnparsable,
        forall|j: int|
            0 <= j < rs.len() && j != k ==> planned(rs, today)[j] == record_action(
                #[trigger] rs[j],
                today,
            ),
{
}

} // verus!
