//! The entities the ledger persists, their mathematical views, and the
//! errors its operations can signal.

use vstd::prelude::*;

verus! {

/// Running tally of record states across the whole ledger. Exactly one
/// instance exists; every mutating operation updates it in the same step
/// that mutates the entity it is paired with.
#[derive(Clone, Copy, PartialEq, Eq, Debug)]
pub struct DataAccessStatus {
    /// How many access grants have been handed out.
    pub granted: u64,
    /// How many created records still await an access grant.
    pub pending: u64,
    /// How many records have been revoked by their patients.
    pub revoked: u64,
    /// How many records have ever been created.
    pub total: u64,
}

/// Key shape under which an access-control entry is persisted:
/// one entry per record id.
#[derive(Clone, Copy, PartialEq, Eq, Debug)]
pub enum Adminbook {
    Admincontrol(u64),
}

/// Access-control entry for one record: whether a healthcare provider
/// has been granted access to it.
#[derive(Clone, Copy, PartialEq, Eq, Debug)]
pub struct Admincontrol {
    /// The record this entry controls; `0` in the default entry returned
    /// for an id that was never granted.
    pub record_id: u64,
    /// Whether access has been granted. Starts `false`, may flip to `true`
    /// exactly once.
    pub access_granted: bool,
}

/// Key shape under which a health record is persisted: one record per id.
#[derive(Clone, Copy, PartialEq, Eq, Debug)]
pub enum HealthData {
    Data(u64),
}

/// One healthcare data submission.
#[derive(Clone, PartialEq, Eq, Debug)]
pub struct HealthRecord {
    /// Positive, unique, assigned by the ledger at creation.
    pub record_id: u64,
    /// Opaque identifier of the data owner.
    pub patient_id: String,
    /// Opaque content reference to the off-ledger data; never validated here.
    pub data_hash: String,
    /// Host-clock value at creation; immutable afterwards.
    pub timestamp: u64,
    /// Starts `false`, may flip to `true` exactly once; never cleared.
    pub is_revoked: bool,
}

/// Why a mutating operation was refused. Every error is detected before any
/// state is written, so a refused operation leaves the ledger unchanged.
#[derive(Clone, Copy, PartialEq, Eq, Debug)]
pub enum LedgerError {
    /// Creation found an unrevoked record in the slot it checks before
    /// assigning a new id.
    InvalidState,
    /// Revocation hit a record that is already revoked or was never created.
    AlreadyRevokedOrNotFound,
    /// An access request hit a grant that is already in force.
    AlreadyGranted,
}

/// Mathematical view of a [`HealthRecord`]: the same fields with the opaque
/// strings read as character sequences.
pub ghost struct HealthRecordModel {
    pub record_id: u64,
    pub patient_id: Seq<char>,
    pub data_hash: Seq<char>,
    pub timestamp: u64,
    pub is_revoked: bool,
}

impl View for HealthRecord {
    type V = HealthRecordModel;

    open spec fn view(&self) -> HealthRecordModel {
        HealthRecordModel {
            record_id: self.record_id,
            patient_id: self.patient_id@,
            data_hash: self.data_hash@,
            timestamp: self.timestamp,
            is_revoked: self.is_revoked,
        }
    }
}

/// The sentinel returned when a record id was never created: absence is
/// signalled by a default record, not by an error, and the sentinel is
/// already revoked so that no operation can act on it.
pub open spec fn sentinel_record() -> HealthRecordModel {
    HealthRecordModel {
        record_id: 0,
        patient_id: "Not Found"@,
        data_hash: "Not Found"@,
        timestamp: 0,
        is_revoked: true,
    }
}

/// The default access-control entry returned when an id has never been
/// granted: no access, and no record id recorded.
pub open spec fn default_grant() -> Admincontrol {
    Admincontrol { record_id: 0, access_granted: false }
}

} // verus!
