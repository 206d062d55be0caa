//! A permissioned data-access ledger for healthcare records.
//!
//! Patients register opaque references to healthcare data, providers request
//! and receive access, and patients may revoke access. The ledger owns the
//! persisted entities (records, access grants, and one aggregate tally) and
//! exposes three mutating operations and three pure views; every operation is
//! specified against a mathematical model of the ledger state and verified.

pub mod laws;
pub mod ledger;
pub mod model;
pub mod types;
