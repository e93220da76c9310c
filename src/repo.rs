use vstd::prelude::*;

use crate::merge::{merge_patch, patch_entries, WriteSet};
use crate::models::{RecordId, UpdateRequest};

verus! {

/// The value of a hexadecimal digit, either case; `None` for any other character.
pub open spec fn hex_value(c: char) -> Option<int> {
    if '0' <= c && c <= '9' {
        Some(c as int - '0' as int)
    } else if 'a' <= c && c <= 'f' {
        Some(c as int - 'a' as int + 10)
    } else if 'A' <= c && c <= 'F' {
        Some(c as int - 'A' as int + 10)
    } else {
        None
    }
}

/// True when `s` is the text of an identifier: 24 hexadecimal digits.
pub open spec fn is_id_text(s: Seq<char>) -> bool {
    s.len() == 24 && forall|i: int| 0 <= i < 24 ==> (#[trigger] hex_value(s[i])) is Some
}

/// The `i`-th byte that the digit pairs of `s` encode, high digit first.
pub open spec fn id_byte(s: Seq<char>, i: int) -> int {
    hex_value(s[2 * i]).unwrap() * 16 + hex_value(s[2 * i + 1]).unwrap()
}

/// True when `b` holds the bytes that the digits of `s` encode.
pub open spec fn decodes_to(s: Seq<char>, b: Seq<u8>) -> bool {
    b.len() == 12 && forall|i: int| 0 <= i < 12 ==> #[trigger] b[i] as int == id_byte(s, i)
}

/// Relies on bson's `ObjectId::parse_str`: it accepts exactly the texts of 24
/// hexadecimal digits, either case (through `hex::decode` and a length check of
/// 12 bytes), and `bytes` returns what the digit pairs encode.
#[verifier::external_body]
fn object_id_bytes(s: &str) -> (r: Option<[u8; 12]>)
    ensures
        r is Some <==> is_id_text(s@),
        r matches Some(b) ==> decodes_to(s@, b@),
{
    match bson::oid::ObjectId::parse_str(s) {
        Ok(oid) => Some(oid.bytes()),
        Err(_) => None,
    }
}

/// How a repository operation can fail.
#[derive(Debug, Clone, PartialEq, Eq)]
pub enum RepoError {
    /// The identifier given cannot be read as a store identifier.
    MalformedId,
    /// No record has the identifier given.
    NotFound,
    /// The store failed; its message is passed on unchanged.
    Store(String),
}

/// Reads an identifier from its text form.
pub fn parse_record_id(s: &str) -> (r: Result<RecordId, RepoError>)
    ensures
        r is Ok <==> is_id_text(s@),
        r matches Ok(id) ==> decodes_to(s@, id.bytes@),
        r matches Err(e) ==> e == RepoError::MalformedId,
{
    match object_id_bytes(s) {
        Some(b) => Ok(RecordId { bytes: b }),
        None => Err(RepoError::MalformedId),
    }
}

/// What an update of one record is to do.
#[derive(Debug, Clone)]
pub enum UpdatePlan {
    /// The patch holds no field: nothing is written.
    NoChange(RecordId),
    /// Write these fields of the record with this identifier.
    Write(RecordId, WriteSet),
}

/// Plans the update of the record whose identifier has text `id` by patch `p`: a
/// malformed identifier is refused, an empty patch writes nothing, and any other
/// patch writes exactly its write set.
pub fn plan_update(id: &str, p: &UpdateRequest) -> (r: Result<UpdatePlan, RepoError>)
    ensures
        r is Err <==> !is_id_text(id@),
        r matches Err(e) ==> e == RepoError::MalformedId,
        r matches Ok(UpdatePlan::NoChange(rid)) ==> patch_entries(*p).len() == 0 && decodes_to(
            id@,
            rid.bytes@,
        ),
        r matches Ok(UpdatePlan::Write(rid, ws)) ==> patch_entries(*p).len() > 0 && ws@
            == patch_entries(*p) && decodes_to(id@, rid.bytes@),
{
    let rid = match parse_record_id(id) {
        Ok(rid) => rid,
        Err(e) => {
            return Err(e);
        },
    };
    let ws = merge_patch(p);
    if ws.is_empty() {
        Ok(UpdatePlan::NoChange(rid))
    } else {
        Ok(UpdatePlan::Write(rid, ws))
    }
}

/// The outcome of a write that the store acknowledged.
#[derive(Debug, Clone, Copy, PartialEq, Eq, Structural)]
pub enum UpdateOutcome {
    /// The record was found and changed.
    Updated,
    /// The record was found, or the patch was empty, and nothing changed.
    Unchanged,
    /// No record has the identifier.
    NotFound,
}

/// Classifies an acknowledged update from the number of records that the filter
/// matched and the number that the write modified.
pub fn update_outcome(matched: u64, modified: u64) -> (r: UpdateOutcome)
    ensures
        r == (if matched == 0 {
            UpdateOutcome::NotFound
        } else if modified == 0 {
            UpdateOutcome::Unchanged
        } else {
            UpdateOutcome::Updated
        }),
{
    if matched == 0 {
        UpdateOutcome::NotFound
    } else if modified == 0 {
        UpdateOutcome::Unchanged
    } else {
        UpdateOutcome::Updated
    }
}

/// The outcome of a delete that the store acknowledged.
#[derive(Debug, Clone, Copy, PartialEq, Eq, Structural)]
pub enum DeleteOutcome {
    Deleted,
    NotFound,
}

/// Classifies an acknowledged delete from the number of records it removed: none
/// removed means that no record had the identifier, which is not a store error.
pub fn delete_outcome(deleted: u64) -> (r: DeleteOutcome)
    ensures
        r == DeleteOutcome::NotFound <==> deleted == 0,
        r == DeleteOutcome::Deleted <==> deleted > 0,
{
    if deleted == 0 {
        DeleteOutcome::NotFound
    } else {
        DeleteOutcome::Deleted
    }
}

} // verus!
