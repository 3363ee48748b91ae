//! A tamper-evident, append-mostly record store for forensic investigation
//! cases and their attached evidence.
//!
//! The store keeps three kinds of state: `Case` records (one per
//! investigation, addressed by the pair of case id and creating
//! investigator), `Evidence` records (immutable submissions, addressed by
//! the pair of case id and sequential ordinal), and an append-only
//! notification log. Four transitions act on it — create a case, attach
//! evidence, close a case, record a finding — each validated against the
//! current record state and applied atomically: a rejected transition leaves
//! no observable state change.

mod digest;
mod errors;
mod events;
mod laws;
mod records;
mod vault;

pub use digest::digest_of;
pub use errors::ForensicError;
pub use errors::TransitionError;
pub use events::CaseClosed;
pub use events::CaseCreated;
pub use events::EvidenceAdded;
pub use events::FindingRecorded;
pub use events::Notification;
pub use events::is_case_closed;
pub use events::is_case_created;
pub use events::is_evidence_added;
pub use events::is_finding_recorded;
pub use records::Case;
pub use records::CaseStatus;
pub use records::Evidence;
pub use records::EvidenceType;
pub use records::Identity;
pub use records::MAX_CASE_ID_LEN;
pub use records::MAX_DESCRIPTION_LEN;
pub use records::MAX_TITLE_LEN;
pub use records::MAX_URI_LEN;
pub use records::bytes32_eq;
pub use records::bytes_eq;
pub use records::copy_bytes;
pub use records::identity_eq;
pub use laws::lemma_case_address_unique;
pub use laws::lemma_evidence_address_unique;
pub use laws::lemma_evidence_ordinals_exact;
pub use vault::AddEvidence;
pub use vault::AddFinding;
pub use vault::CloseCase;
pub use vault::CreateCase;
pub use vault::EvidenceVault;
pub use vault::case_key_taken_in;
pub use vault::case_keys_unique;
pub use vault::cases_all_valid;
pub use vault::evidence_all_valid;
pub use vault::evidence_key_taken_in;
pub use vault::evidence_keys_unique;
pub use vault::has_case_key;
pub use vault::has_evidence_key;
pub use vault::ordinal_covered;
pub use vault::ordinals_complete;
pub use vault::ordinals_covered;
