//! End-to-end scenarios over the store: one investigation from creation
//! through evidence attachment to closure.

use evidence_vault::AddEvidence;
use evidence_vault::AddFinding;
use evidence_vault::CaseStatus;
use evidence_vault::CloseCase;
use evidence_vault::CreateCase;
use evidence_vault::EvidenceType;
use evidence_vault::EvidenceVault;
use evidence_vault::ForensicError;
use evidence_vault::Identity;
use evidence_vault::Notification;
use evidence_vault::TransitionError;

fn id(b: u8) -> Identity {
    Identity { bytes: [b; 32] }
}

fn bs(s: &str) -> Vec<u8> {
    s.as_bytes().to_vec()
}

fn vault_with_case_001() -> (EvidenceVault, Identity) {
    let mut v = EvidenceVault::new();
    let a = id(1);
    let r = v.create_case(
        CreateCase { investigator: a },
        bs("CASE-001"),
        bs("Theft probe"),
        bs("desc"),
        100,
    );
    assert!(r.is_ok());
    (v, a)
}

#[test]
fn create_case_initial_state() {
    let (v, a) = vault_with_case_001();
    assert_eq!(v.cases.len(), 1);
    let c = &v.cases[0];
    assert_eq!(c.status, CaseStatus::Open);
    assert_eq!(c.evidence_count, 0);
    assert_eq!(c.report_hash, None);
    assert_eq!(c.investigator, a);
    assert_eq!(c.case_id, bs("CASE-001"));
    assert_eq!(c.title, bs("Theft probe"));
    assert_eq!(c.description, bs("desc"));
    assert_eq!(c.created_at, 100);
    assert_eq!(c.updated_at, 100);
    assert_eq!(v.evidence.len(), 0);
    assert_eq!(v.log.len(), 1);
    match &v.log[0] {
        Notification::CaseCreated(e) => {
            assert_eq!(e.case_id, bs("CASE-001"));
            assert_eq!(e.investigator, a);
            assert_eq!(e.timestamp, 100);
        }
        _ => panic!("expected a CaseCreated notice"),
    }
}

#[test]
fn attach_evidence_by_other_identity() {
    let (mut v, _a) = vault_with_case_001();
    let b = id(2);
    let h1 = [0x11u8; 32];
    let r = v.add_evidence(
        AddEvidence { case_id: bs("CASE-001"), case_investigator: id(1), submitter: b },
        EvidenceType::TransactionTrace,
        h1,
        bs("ipfs://x"),
        bs("tx trace"),
        101,
    );
    assert!(r.is_ok());
    assert_eq!(v.cases[0].evidence_count, 1);
    assert_eq!(v.cases[0].updated_at, 101);
    assert_eq!(v.evidence.len(), 1);
    let e = &v.evidence[0];
    assert_eq!(e.evidence_id, 0);
    assert_eq!(e.submitter, b);
    assert_eq!(e.case_id, bs("CASE-001"));
    assert_eq!(e.evidence_type, EvidenceType::TransactionTrace);
    assert_eq!(e.data_hash, h1);
    assert_eq!(e.metadata_uri, bs("ipfs://x"));
    assert_eq!(e.description, bs("tx trace"));
    assert_eq!(e.timestamp, 101);
    match &v.log[1] {
        Notification::EvidenceAdded(n) => {
            assert_eq!(n.case_id, bs("CASE-001"));
            assert_eq!(n.evidence_id, 0);
            assert_eq!(n.evidence_type, EvidenceType::TransactionTrace);
            assert_eq!(n.submitter, b);
            assert_eq!(n.timestamp, 101);
        }
        _ => panic!("expected an EvidenceAdded notice"),
    }
}

#[test]
fn close_by_non_owner_rejected() {
    let (mut v, _a) = vault_with_case_001();
    let b = id(2);
    let r = v.close_case(
        CloseCase { case_id: bs("CASE-001"), case_investigator: id(1), investigator: b },
        [0x22u8; 32],
        102,
    );
    assert_eq!(r, Err(TransitionError::Rule(ForensicError::Unauthorized)));
    assert_eq!(v.cases[0].status, CaseStatus::Open);
    assert_eq!(v.cases[0].report_hash, None);
    assert_eq!(v.cases[0].updated_at, 100);
    assert_eq!(v.log.len(), 1);
}

#[test]
fn close_by_owner_then_attach_fails() {
    let (mut v, a) = vault_with_case_001();
    let h2 = [0x22u8; 32];
    let r = v.close_case(
        CloseCase { case_id: bs("CASE-001"), case_investigator: a, investigator: a },
        h2,
        103,
    );
    assert!(r.is_ok());
    assert_eq!(v.cases[0].status, CaseStatus::Closed);
    assert_eq!(v.cases[0].report_hash, Some(h2));
    assert_eq!(v.cases[0].updated_at, 103);
    match &v.log[1] {
        Notification::CaseClosed(n) => {
            assert_eq!(n.case_id, bs("CASE-001"));
            assert_eq!(n.report_hash, h2);
            assert_eq!(n.timestamp, 103);
        }
        _ => panic!("expected a CaseClosed notice"),
    }
    let r2 = v.add_evidence(
        AddEvidence { case_id: bs("CASE-001"), case_investigator: a, submitter: id(2) },
        EvidenceType::Report,
        [0x33u8; 32],
        bs("ipfs://y"),
        bs("late"),
        104,
    );
    assert_eq!(r2, Err(TransitionError::Rule(ForensicError::CaseClosed)));
    assert_eq!(v.cases[0].evidence_count, 0);
    assert_eq!(v.evidence.len(), 0);
}

#[test]
fn reclosure_by_owner_overwrites_report() {
    let (mut v, a) = vault_with_case_001();
    let h2 = [0x22u8; 32];
    let h3 = [0x33u8; 32];
    let ctx = |inv: Identity| CloseCase {
        case_id: bs("CASE-001"),
        case_investigator: a,
        investigator: inv,
    };
    assert!(v.close_case(ctx(a), h2, 103).is_ok());
    assert!(v.close_case(ctx(a), h3, 104).is_ok());
    assert_eq!(v.cases[0].status, CaseStatus::Closed);
    assert_eq!(v.cases[0].report_hash, Some(h3));
    assert_eq!(v.cases[0].updated_at, 104);
}

#[test]
fn finding_on_closed_case_rejected() {
    let (mut v, a) = vault_with_case_001();
    assert!(
        v.close_case(
            CloseCase { case_id: bs("CASE-001"), case_investigator: a, investigator: a },
            [0u8; 32],
            103,
        )
        .is_ok()
    );
    let log_len = v.log.len();
    let r = v.add_finding(
        AddFinding { case_id: bs("CASE-001"), case_investigator: a, recorder: id(3) },
        bs("too late"),
        105,
    );
    assert_eq!(r, Err(TransitionError::Rule(ForensicError::CaseClosed)));
    assert_eq!(v.log.len(), log_len);
}
