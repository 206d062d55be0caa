//! Laws of the ledger, proved over the abstract model. Together with the
//! well-formedness preservation stated in every operation's contract, each
//! law holds after any sequence of operations started from a fresh ledger.

use vstd::prelude::*;

use crate::model::{
    grant_at, lemma_revoked_count_lt, record_at, spec_create, spec_request, spec_revoke,
    wrapping_dec, wf, LedgerModel,
};
use crate::types::{sentinel_record, Admincontrol, HealthRecordModel, LedgerError};

verus! {

/// Viewing an id that no creation ever assigned — zero, or beyond the ids
/// handed out so far — yields the sentinel record, in every well-formed
/// state.
pub proof fn lemma_view_never_created(m: LedgerModel, record_id: u64)
    requires
        wf(m),
        record_id == 0 || record_id > m.status.total,
    ensures
        record_at(m, record_id) == sentinel_record(),
{
}

/// A creation that is handed the clock value `timestamp` returns the next
/// id, and afterwards that id views as an unrevoked record carrying exactly
/// the given owner, content reference and timestamp, while the total and
/// pending counts have each grown by one and the other counts are untouched.
pub proof fn lemma_create_then_view(
    m: LedgerModel,
    patient_id: Seq<char>,
    data_hash: Seq<char>,
    timestamp: u64,
)
    requires
        wf(m),
        m.status.total < u64::MAX,
        m.status.pending < u64::MAX,
    ensures
        ({
            let (m2, result) = spec_create(m, patient_id, data_hash, timestamp);
            let new_id = (m.status.total + 1) as u64;
            &&& result == Ok::<u64, LedgerError>(new_id)
            &&& record_at(m2, new_id) == (HealthRecordModel {
                record_id: new_id,
                patient_id: patient_id,
                data_hash: data_hash,
                timestamp: timestamp,
                is_revoked: false,
            })
            &&& m2.status.total == m.status.total + 1
            &&& m2.status.pending == m.status.pending + 1
            &&& m2.status.granted == m.status.granted
            &&& m2.status.revoked == m.status.revoked
            &&& m2.grants == m.grants
            &&& forall|id: u64|
                1 <= id <= m.status.total ==> record_at(m2, id) == record_at(m, id)
        }),
{
}

/// Revoking an id whose record is unrevoked succeeds: the record is marked
/// revoked, the revoked count grows by exactly one, and the other counts and
/// every other record stay as they were. Revoking the same id again fails
/// with `AlreadyRevokedOrNotFound` and changes nothing.
pub proof fn lemma_revoke_then_revoke_again(m: LedgerModel, record_id: u64)
    requires
        wf(m),
        !record_at(m, record_id).is_revoked,
    ensures
        ({
            let (m2, first) = spec_revoke(m, record_id);
            let (m3, second) = spec_revoke(m2, record_id);
            &&& first == Ok::<(), LedgerError>(())
            &&& record_at(m2, record_id) == (HealthRecordModel {
                is_revoked: true,
                ..record_at(m, record_id)
            })
            &&& m2.status.revoked == m.status.revoked + 1
            &&& m2.status.granted == m.status.granted
            &&& m2.status.pending == m.status.pending
            &&& m2.status.total == m.status.total
            &&& m2.grants == m.grants
            &&& forall|id: u64|
                id != record_id ==> record_at(m2, id) == record_at(m, id)
            &&& second == Err::<(), LedgerError>(LedgerError::AlreadyRevokedOrNotFound)
            &&& m3 == m2
        }),
{
    lemma_revoked_count_lt(m.records, record_id - 1);
}

/// Requesting access for an id without an in-force grant succeeds: the grant
/// is now in force, the granted count grows by exactly one, the pending
/// count shrinks by one (wrapping at zero, with no floor check), and the
/// records, every other grant, and the other counts stay as they were.
/// Requesting the same id again fails with `AlreadyGranted` and changes
/// nothing.
pub proof fn lemma_request_then_request_again(m: LedgerModel, record_id: u64)
    requires
        wf(m),
        !grant_at(m, record_id).access_granted,
        m.status.granted < u64::MAX,
    ensures
        ({
            let (m2, first) = spec_request(m, record_id);
            let (m3, second) = spec_request(m2, record_id);
            &&& first == Ok::<(), LedgerError>(())
            &&& grant_at(m2, record_id) == (Admincontrol {
                record_id: record_id,
                access_granted: true,
            })
            &&& m2.status.granted == m.status.granted + 1
            &&& m2.status.pending == wrapping_dec(m.status.pending)
            &&& (m.status.pending > 0 ==> m2.status.pending == m.status.pending - 1)
            &&& m2.status.revoked == m.status.revoked
            &&& m2.status.total == m.status.total
            &&& m2.records == m.records
            &&& forall|id: u64|
                id != record_id ==> grant_at(m2, id) == grant_at(m, id)
            &&& second == Err::<(), LedgerError>(LedgerError::AlreadyGranted)
            &&& m3 == m2
        }),
{
}

} // verus!
