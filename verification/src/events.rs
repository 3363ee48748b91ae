//! Notification shapes. On each successful transition the store appends one
//! structured, timestamped notice to its append-only log for external
//! observers; a finding leaves no other trace than its notification.

use vstd::prelude::*;

use crate::records::Identity;
use crate::records::EvidenceType;

verus! {

/// Emitted when a case is created.
#[derive(Debug)]
pub struct CaseCreated {
    pub case_id: Vec<u8>,
    pub investigator: Identity,
    pub timestamp: i64,
}

/// Emitted when an evidence record is attached to a case.
#[derive(Debug)]
pub struct EvidenceAdded {
    pub case_id: Vec<u8>,
    pub evidence_id: u32,
    pub evidence_type: EvidenceType,
    pub submitter: Identity,
    pub timestamp: i64,
}

/// Emitted when a case is closed with its final report digest.
#[derive(Debug)]
pub struct CaseClosed {
    pub case_id: Vec<u8>,
    pub report_hash: [u8; 32],
    pub timestamp: i64,
}

/// Emitted when a finding is recorded. Only the digest of the finding text
/// is carried; the text itself is never stored.
#[derive(Debug)]
pub struct FindingRecorded {
    pub case_id: Vec<u8>,
    pub finding_hash: [u8; 32],
    pub recorder: Identity,
    pub timestamp: i64,
}

/// One entry of the append-only notification log.
#[derive(Debug)]
pub enum Notification {
    CaseCreated(CaseCreated),
    EvidenceAdded(EvidenceAdded),
    CaseClosed(CaseClosed),
    FindingRecorded(FindingRecorded),
}

/// `n` is a `CaseCreated` notice with exactly these fields.
pub open spec fn is_case_created(n: Notification, case_id: Seq<u8>, investigator: Seq<u8>, timestamp: i64) -> bool {
    match n {
        Notification::CaseCreated(e) => {
            &&& e.case_id@ == case_id
            &&& e.investigator@ == investigator
            &&& e.timestamp == timestamp
        },
        _ => false,
    }
}

/// `n` is an `EvidenceAdded` notice with exactly these fields.
pub open spec fn is_evidence_added(n: Notification, case_id: Seq<u8>, evidence_id: u32, evidence_type: EvidenceType, submitter: Seq<u8>, timestamp: i64) -> bool {
    match n {
        Notification::EvidenceAdded(e) => {
            &&& e.case_id@ == case_id
            &&& e.evidence_id == evidence_id
            &&& e.evidence_type == evidence_type
            &&& e.submitter@ == submitter
            &&& e.timestamp == timestamp
        },
        _ => false,
    }
}

/// `n` is a `CaseClosed` notice with exactly these fields.
pub open spec fn is_case_closed(n: Notification, case_id: Seq<u8>, report_hash: Seq<u8>, timestamp: i64) -> bool {
    match n {
        Notification::CaseClosed(e) => {
            &&& e.case_id@ == case_id
            &&& e.report_hash@ == report_hash
            &&& e.timestamp == timestamp
        },
        _ => false,
    }
}

/// `n` is a `FindingRecorded` notice with exactly these fields.
pub open spec fn is_finding_recorded(n: Notification, case_id: Seq<u8>, finding_hash: Seq<u8>, recorder: Seq<u8>, timestamp: i64) -> bool {
    match n {
        Notification::FindingRecorded(e) => {
            &&& e.case_id@ == case_id
            &&& e.finding_hash@ == finding_hash
            &&& e.recorder@ == recorder
            &&& e.timestamp == timestamp
        },
        _ => false,
    }
}

} // verus!
