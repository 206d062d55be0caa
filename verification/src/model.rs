//! The mathematical model of the ledger: an abstract state, a
//! well-formedness predicate that every reachable state satisfies, and one
//! transition function per mutating operation. The executable ledger's
//! contracts are stated against these, and the laws about operation
//! sequences are proved over them.

use vstd::prelude::*;

use crate::types::{
    default_grant, sentinel_record, Admincontrol, DataAccessStatus, HealthRecordModel, LedgerError,
};

verus! {

/// Abstract state of the whole ledger.
///
/// Created records are dense: the record with id `i` (ids start at 1) sits at
/// index `i - 1` of `records`. Grants may exist for any id, created or not.
/// `count_data` is the raw sequence counter the creation guard reads; it is
/// persisted separately from `status.total` even though well-formed states
/// keep the two equal.
pub ghost struct LedgerModel {
    pub records: Seq<HealthRecordModel>,
    pub grants: Map<u64, Admincontrol>,
    pub status: DataAccessStatus,
    pub count_data: u64,
}

/// How many records of `s` are revoked.
pub open spec fn revoked_count(s: Seq<HealthRecordModel>) -> nat
    decreases s.len(),
{
    if s.len() == 0 {
        0
    } else {
        revoked_count(s.drop_last()) + (if s.last().is_revoked {
            1nat
        } else {
            0nat
        })
    }
}

/// Well-formedness of a ledger state. The empty state satisfies it and every
/// operation preserves it, so it holds after any sequence of operations:
/// the total counts the records ever created, the sequence counter agrees
/// with it, each stored record carries the id of its slot, every persisted
/// grant is an in-force grant for its own key, and the revoked counter
/// counts exactly the revoked records.
pub open spec fn wf(m: LedgerModel) -> bool {
    &&& m.records.len() == m.status.total
    &&& m.count_data == m.status.total
    &&& forall|i: int|
        0 <= i < m.records.len() ==> (#[trigger] m.records[i]).record_id == i + 1
    &&& forall|k: u64|
        #[trigger] m.grants.dom().contains(k) ==> m.grants[k] == (Admincontrol {
            record_id: k,
            access_granted: true,
        })
    &&& m.status.revoked == revoked_count(m.records)
}

/// The state holding no records, no grants, and an all-zero tally.
pub open spec fn empty_model() -> LedgerModel {
    LedgerModel {
        records: Seq::empty(),
        grants: Map::empty(),
        status: DataAccessStatus { granted: 0, pending: 0, revoked: 0, total: 0 },
        count_data: 0,
    }
}

/// What viewing a record returns: the stored record for a created id, the
/// sentinel for any other id (including 0).
pub open spec fn record_at(m: LedgerModel, record_id: u64) -> HealthRecordModel {
    if 1 <= record_id && record_id <= m.records.len() {
        m.records[record_id - 1]
    } else {
        sentinel_record()
    }
}

/// What viewing an access-control entry returns: the persisted grant, or the
/// default "not granted" entry when none was ever persisted for the id.
pub open spec fn grant_at(m: LedgerModel, record_id: u64) -> Admincontrol {
    if m.grants.dom().contains(record_id) {
        m.grants[record_id]
    } else {
        default_grant()
    }
}

/// The unchecked decrement applied to the pending counter: no floor check is
/// made, so at zero the count wraps around. This is deliberate ledger
/// behaviour, left as an open design question rather than silently mended; a
/// corrected design would instead decrement the pending count exactly once
/// per transition out of the pending state.
pub open spec fn wrapping_dec(x: u64) -> u64 {
    if x == 0 {
        u64::MAX
    } else {
        (x - 1) as u64
    }
}

/// Creation. The guard reads the slot named by the incremented sequence
/// counter; only if that slot is revoked or absent (absence reads as the
/// already-revoked sentinel) is a record created, with the next total as its
/// id, and the pending and total counts stepped alongside it. Otherwise the
/// state is unchanged and creation signals `InvalidState`.
pub open spec fn spec_create(
    m: LedgerModel,
    patient_id: Seq<char>,
    data_hash: Seq<char>,
    timestamp: u64,
) -> (LedgerModel, Result<u64, LedgerError>) {
    let guard = record_at(m, (m.count_data + 1) as u64);
    if guard.is_revoked {
        let status = DataAccessStatus {
            granted: m.status.granted,
            pending: (m.status.pending + 1) as u64,
            revoked: m.status.revoked,
            total: (m.status.total + 1) as u64,
        };
        let record = HealthRecordModel {
            record_id: status.total,
            patient_id: patient_id,
            data_hash: data_hash,
            timestamp: timestamp,
            is_revoked: false,
        };
        (
            LedgerModel {
                records: m.records.push(record),
                grants: m.grants,
                status: status,
                count_data: (m.count_data + 1) as u64,
            },
            Ok(status.total),
        )
    } else {
        (m, Err(LedgerError::InvalidState))
    }
}

/// Revocation. An unrevoked record is marked revoked (written back under its
/// own stored id) and the revoked count stepped; the pending count is left
/// untouched. A revoked or never-created id signals
/// `AlreadyRevokedOrNotFound` and leaves the state unchanged.
pub open spec fn spec_revoke(m: LedgerModel, record_id: u64) -> (
    LedgerModel,
    Result<(), LedgerError>,
) {
    let record = record_at(m, record_id);
    if !record.is_revoked {
        let updated = HealthRecordModel { is_revoked: true, ..record };
        let status = DataAccessStatus { revoked: (m.status.revoked + 1) as u64, ..m.status };
        (
            LedgerModel {
                records: m.records.update(record.record_id - 1, updated),
                status: status,
                ..m
            },
            Ok(()),
        )
    } else {
        (m, Err(LedgerError::AlreadyRevokedOrNotFound))
    }
}

/// An access request. An id without an in-force grant gets one persisted for
/// it, the granted count stepped, and the pending count decremented without
/// a floor check. An id already granted signals `AlreadyGranted` and leaves
/// the state unchanged.
pub open spec fn spec_request(m: LedgerModel, record_id: u64) -> (
    LedgerModel,
    Result<(), LedgerError>,
) {
    let grant = grant_at(m, record_id);
    if !grant.access_granted {
        let status = DataAccessStatus {
            granted: (m.status.granted + 1) as u64,
            pending: wrapping_dec(m.status.pending),
            ..m.status
        };
        (
            LedgerModel {
                grants: m.grants.insert(
                    record_id,
                    Admincontrol { record_id: record_id, access_granted: true },
                ),
                status: status,
                ..m
            },
            Ok(()),
        )
    } else {
        (m, Err(LedgerError::AlreadyGranted))
    }
}

/// No more records are revoked than exist.
pub proof fn lemma_revoked_count_le(s: Seq<HealthRecordModel>)
    ensures
        revoked_count(s) <= s.len(),
    decreases s.len(),
{
    if s.len() > 0 {
        lemma_revoked_count_le(s.drop_last());
    }
}

/// While some record is unrevoked, the revoked count is strictly below the
/// record count.
pub proof fn lemma_revoked_count_lt(s: Seq<HealthRecordModel>, i: int)
    requires
        0 <= i < s.len(),
        !s[i].is_revoked,
    ensures
        revoked_count(s) < s.len(),
    decreases s.len(),
{
    if i == s.len() - 1 {
        lemma_revoked_count_le(s.drop_last());
    } else {
        lemma_revoked_count_lt(s.drop_last(), i);
    }
}

/// Appending a record adds its own revocation flag to the revoked count.
pub proof fn lemma_revoked_count_push(s: Seq<HealthRecordModel>, r: HealthRecordModel)
    ensures
        revoked_count(s.push(r)) == revoked_count(s) + (if r.is_revoked {
            1nat
        } else {
            0nat
        }),
{
    assert(s.push(r).drop_last() =~= s);
    assert(s.push(r).last() == r);
}

/// Replacing one record adjusts the revoked count by the difference of the
/// two revocation flags.
pub proof fn lemma_revoked_count_update(s: Seq<HealthRecordModel>, i: int, r: HealthRecordModel)
    requires
        0 <= i < s.len(),
    ensures
        revoked_count(s.update(i, r)) == revoked_count(s) + (if r.is_revoked {
            1int
        } else {
            0int
        }) - (if s[i].is_revoked {
            1int
        } else {
            0int
        }),
    decreases s.len(),
{
    if i == s.len() - 1 {
        assert(s.update(i, r).drop_last() =~= s.drop_last());
        assert(s.update(i, r).last() == r);
    } else {
        assert(s.update(i, r).drop_last() =~= s.drop_last().update(i, r));
        assert(s.update(i, r).last() == s.last());
        lemma_revoked_count_update(s.drop_last(), i, r);
    }
}

} // verus!
