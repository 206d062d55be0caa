//! The executable ledger. It owns the persisted entities — the dense record
//! store, the access-control entries, the aggregate tally, and the raw
//! sequence counter — and offers the three mutating operations and three
//! pure views. Each operation's contract equates its effect with the
//! corresponding transition of the abstract model.

use std::collections::HashMap;

use vstd::prelude::*;

use crate::model::{
    empty_model, grant_at, lemma_revoked_count_lt, lemma_revoked_count_push,
    lemma_revoked_count_update, record_at, spec_create, spec_request, spec_revoke, wf, LedgerModel,
};
use crate::types::{Admincontrol, DataAccessStatus, HealthRecord, HealthRecordModel, LedgerError};

verus! {

broadcast use vstd::std_specs::hash::group_hash_axioms;

/// The permissioned data-access ledger. Every operation reads the state it
/// needs, validates the transition, and applies it together with the tally
/// update in the same call; a refused operation writes nothing.
pub struct HealthcareDataContract {
    records: Vec<HealthRecord>,
    grants: HashMap<u64, Admincontrol>,
    status: DataAccessStatus,
    count_data: u64,
}

impl View for HealthcareDataContract {
    type V = LedgerModel;

    closed spec fn view(&self) -> LedgerModel {
        LedgerModel {
            records: self.records@.map_values(|r: HealthRecord| r@),
            grants: self.grants@,
            status: self.status,
            count_data: self.count_data,
        }
    }
}

impl HealthcareDataContract {
    /// A fresh ledger: no records, no grants, an all-zero tally.
    pub fn new() -> (ledger: Self)
        ensures
            ledger@ == empty_model(),
            wf(ledger@),
    {
        let ledger = HealthcareDataContract {
            records: Vec::new(),
            grants: HashMap::new(),
            status: DataAccessStatus { granted: 0, pending: 0, revoked: 0, total: 0 },
            count_data: 0,
        };
        proof {
            assert(ledger@.records =~= empty_model().records);
            assert(ledger@ == empty_model());
        }
        ledger
    }

    /// Create a new record owned by `patient_id`, referencing `data_hash`,
    /// stamped with the host clock value `timestamp`, and return its id.
    ///
    /// The next sequence number is taken from the raw counter, the slot it
    /// names is checked — an unrevoked record there refuses the creation
    /// with `InvalidState` — and on success the record is persisted with
    /// `total + 1` as its id while the pending and total counts step by one.
    /// From a well-formed state the checked slot is always vacant, so
    /// creation always succeeds and returns `total + 1`.
    pub fn create_data(
        &mut self,
        patient_id: String,
        data_hash: String,
        timestamp: u64,
    ) -> (result: Result<u64, LedgerError>)
        requires
            wf(old(self)@),
            old(self)@.status.total < u64::MAX,
            old(self)@.status.pending < u64::MAX,
        ensures
            wf(final(self)@),
            final(self)@ == spec_create(old(self)@, patient_id@, data_hash@, timestamp).0,
            result == spec_create(old(self)@, patient_id@, data_hash@, timestamp).1,
            result == Ok::<u64, LedgerError>((old(self)@.status.total + 1) as u64),
    {
        let ghost m0 = self@;
        let ghost p = patient_id@;
        let ghost h = data_hash@;
        let count_data: u64 = self.count_data + 1;
        let record = self.view_data(count_data);
        if record.is_revoked {
            let mut all_data = self.view_all_data_status();
            all_data.pending = all_data.pending + 1;
            all_data.total = all_data.total + 1;
            let record_id: u64 = all_data.total;
            let new_record = HealthRecord {
                record_id: record_id,
                patient_id: patient_id,
                data_hash: data_hash,
                timestamp: timestamp,
                is_revoked: false,
            };
            proof {
                lemma_revoked_count_push(m0.records, new_record@);
            }
            self.records.push(new_record);
            self.status = all_data;
            self.count_data = count_data;
            proof {
                assert(self@.records =~= spec_create(m0, p, h, timestamp).0.records);
                assert(self@ == spec_create(m0, p, h, timestamp).0);
            }
            Ok(record_id)
        } else {
            Err(LedgerError::InvalidState)
        }
    }

    /// Revoke the record `record_id`. An unrevoked record is marked revoked
    /// and the revoked count steps by one; the pending count is left as it
    /// is. A record already revoked — or never created, which reads as the
    /// already-revoked sentinel — refuses with `AlreadyRevokedOrNotFound`
    /// and leaves the ledger unchanged.
    pub fn revoke_access(&mut self, record_id: u64) -> (result: Result<(), LedgerError>)
        requires
            wf(old(self)@),
        ensures
            wf(final(self)@),
            final(self)@ == spec_revoke(old(self)@, record_id).0,
            result == spec_revoke(old(self)@, record_id).1,
    {
        let ghost m0 = self@;
        let record = self.view_data(record_id);
        if !record.is_revoked {
            proof {
                lemma_revoked_count_lt(m0.records, record.record_id - 1);
                lemma_revoked_count_update(
                    m0.records,
                    record.record_id - 1,
                    HealthRecordModel { is_revoked: true, ..record_at(m0, record_id) },
                );
                assert(record.record_id - 1 < self.records.len());
            }
            let index: usize = (record.record_id - 1) as usize;
            let mut updated = record;
            updated.is_revoked = true;
            self.records.set(index, updated);
            let mut all_data = self.view_all_data_status();
            all_data.revoked = all_data.revoked + 1;
            self.status = all_data;
            proof {
                assert(self@.records =~= spec_revoke(m0, record_id).0.records);
                assert(self@ == spec_revoke(m0, record_id).0);
            }
            Ok(())
        } else {
            Err(LedgerError::AlreadyRevokedOrNotFound)
        }
    }

    /// Grant a healthcare provider access to the record `record_id`. An id
    /// without an in-force grant gets one persisted, the granted count steps
    /// by one, and the pending count is decremented with no floor check (at
    /// zero it wraps). An id already granted refuses with `AlreadyGranted`
    /// and leaves the ledger unchanged.
    pub fn request_access(&mut self, record_id: u64) -> (result: Result<(), LedgerError>)
        requires
            wf(old(self)@),
            old(self)@.status.granted < u64::MAX,
        ensures
            wf(final(self)@),
            final(self)@ == spec_request(old(self)@, record_id).0,
            result == spec_request(old(self)@, record_id).1,
    {
        let ghost m0 = self@;
        let admin_control = self.view_admin_control(record_id);
        if !admin_control.access_granted {
            let updated = Admincontrol { record_id: record_id, access_granted: true };
            self.grants.insert(record_id, updated);
            let mut all_data = self.view_all_data_status();
            all_data.granted = all_data.granted + 1;
            all_data.pending = if all_data.pending == 0 {
                u64::MAX
            } else {
                all_data.pending - 1
            };
            self.status = all_data;
            proof {
                assert(self@.records =~= spec_request(m0, record_id).0.records);
                assert(self@ == spec_request(m0, record_id).0);
            }
            Ok(())
        } else {
            Err(LedgerError::AlreadyGranted)
        }
    }

    /// The current aggregate tally.
    pub fn view_all_data_status(&self) -> (status: DataAccessStatus)
        ensures
            status == self@.status,
    {
        self.status
    }

    /// The record stored under `record_id`, or the sentinel record
    /// (`record_id` 0, `"Not Found"` strings, already revoked) when the id
    /// was never created.
    pub fn view_data(&self, record_id: u64) -> (record: HealthRecord)
        ensures
            record@ == record_at(self@, record_id),
    {
        let n: usize = self.records.len();
        if 1 <= record_id && record_id <= n as u64 {
            let index: usize = (record_id - 1) as usize;
            let stored = &self.records[index];
            HealthRecord {
                record_id: stored.record_id,
                patient_id: stored.patient_id.clone(),
                data_hash: stored.data_hash.clone(),
                timestamp: stored.timestamp,
                is_revoked: stored.is_revoked,
            }
        } else {
            HealthRecord {
                record_id: 0,
                patient_id: String::from_str("Not Found"),
                data_hash: String::from_str("Not Found"),
                timestamp: 0,
                is_revoked: true,
            }
        }
    }

    /// The access-control entry stored under `record_id`, or the default
    /// entry (`record_id` 0, access not granted) when none was persisted.
    pub fn view_admin_control(&self, record_id: u64) -> (grant: Admincontrol)
        ensures
            grant == grant_at(self@, record_id),
    {
        match self.grants.get(&record_id) {
            Some(stored) => *stored,
            None => Admincontrol { record_id: 0, access_granted: false },
        }
    }
}

} // verus!
