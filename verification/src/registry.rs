//! Records of issued identifiers, and what the answers of the registry
//! store mean to a caller.

use vstd::prelude::*;
use vstd::string::StringExecFns;
use crate::allocation::Phase;
use crate::settings::text_of;
use crate::signal::Signal;

verus! {

/// One issued identifier as the store holds it.
#[derive(Debug, Clone, PartialEq, Eq)]
pub struct IdRecord {
    /// The identifier; no two records share one, deleted or not.
    pub id: String,
    /// Who asked for it.
    pub owner: String,
    /// The category the requester filed it under, if any.
    pub table: Option<String>,
    /// Whether the identifier was confirmed.
    pub confirmed: bool,
    /// Whether the record is marked deleted. Such a record keeps its
    /// identifier reserved and is hidden from lookups.
    pub deleted: bool,
    /// When the store inserted the record, as the store writes it.
    pub created_at: String,
}

/// What an `IdRecord` holds.
pub struct IdRecordView {
    pub id: Seq<char>,
    pub owner: Seq<char>,
    pub table: Option<Seq<char>>,
    pub confirmed: bool,
    pub deleted: bool,
    pub created_at: Seq<char>,
}

impl View for IdRecord {
    type V = IdRecordView;

    open spec fn view(&self) -> IdRecordView {
        IdRecordView {
            id: self.id@,
            owner: self.owner@,
            table: text_of(self.table),
            confirmed: self.confirmed,
            deleted: self.deleted,
            created_at: self.created_at@,
        }
    }
}

/// The record of an identifier that was just inserted: neither confirmed
/// nor deleted. Where the store did not give the time of insertion back,
/// the record says `unknown`.
pub fn allocated_record(
    id: String,
    owner: String,
    table: Option<String>,
    created_at: Option<String>,
) -> (record: IdRecord)
    ensures
        record@ == (IdRecordView {
            id: id@,
            owner: owner@,
            table: text_of(table),
            confirmed: false,
            deleted: false,
            created_at: match created_at {
                Some(at) => at@,
                None => "unknown"@,
            },
        }),
{
    let created_at = match created_at {
        Some(at) => at,
        None => "unknown".to_owned(),
    };
    IdRecord { id, owner, table, confirmed: false, deleted: false, created_at }
}

/// The answer to a confirmation.
#[derive(Debug, Clone, PartialEq, Eq)]
pub struct ConfirmResponse {
    /// Whether a record was confirmed.
    pub success: bool,
    /// What happened, in words.
    pub message: String,
}

/// The message of a confirmation of `id` that changed `rows_affected` rows.
pub open spec fn confirmation_message(id: Seq<char>, rows_affected: nat) -> Seq<char> {
    if rows_affected == 0 {
        "ID "@ + id + " not found or already confirmed"@
    } else {
        "ID "@ + id + " confirmed"@
    }
}

/// The answer to a confirmation of `id` for which the store changed
/// `rows_affected` rows. No row changed is an answer, not an error.
pub fn confirm_response(id: &str, rows_affected: usize) -> (response: ConfirmResponse)
    ensures
        response.success == (rows_affected > 0),
        response.message@ == confirmation_message(id@, rows_affected as nat),
{
    let mut message = "ID ".to_owned();
    message.append(id);
    if rows_affected == 0 {
        message.append(" not found or already confirmed");
        ConfirmResponse { success: false, message }
    } else {
        message.append(" confirmed");
        ConfirmResponse { success: true, message }
    }
}

/// What a lookup shows of the row found under an identifier: the row,
/// unless there is none or it is marked deleted.
pub open spec fn visible(row: Option<IdRecord>) -> Option<IdRecord> {
    match row {
        Some(record) => if record.deleted {
            None
        } else {
            Some(record)
        },
        None => None,
    }
}

/// The outcome of a lookup, given the row that the store holds under the
/// identifier, if it holds one.
pub fn lookup(row: Option<IdRecord>) -> (r: Result<IdRecord, Signal>)
    ensures
        r == match visible(row) {
            Some(record) => Ok::<IdRecord, Signal>(record),
            None => Err::<IdRecord, Signal>(Signal::NotFound),
        },
{
    match row {
        Some(record) => {
            if record.deleted {
                Err(Signal::NotFound)
            } else {
                Ok(record)
            }
        },
        None => Err(Signal::NotFound),
    }
}

/// A record that is marked deleted is hidden from lookups, and its
/// identifier stays reserved: the row still counts when the store is asked
/// about a candidate of that value, so the candidate is never issued.
pub proof fn lemma_deleted_is_hidden_and_reserved(record: IdRecord, attempt: nat, matching_rows: nat)
    requires
        record.deleted,
        matching_rows >= 1,
    ensures
        visible(Some(record)) is None,
        !(Phase::Checking(attempt, record.id@).resolve(matching_rows > 0) is Success),
{
}

} // verus!
